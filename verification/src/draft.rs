//! The composer draft of a discussion: which drafts may be saved, and how a
//! save advances the draft's version by compare-and-swap.
use vstd::prelude::*;
use crate::error::{CoreError, ErrorCode, fails_with};
use crate::lifecycle::{MAX_OUTPUT_BYTES, MAX_PINNED_DOCUMENTS, MAX_SCOPE_QUOTE_BYTES};
use crate::request::{
    all_ids_valid, basis_ok, check_ids, lookup_request_error, safe_brief_shape_ok, scope_kind,
    validate_feedback_basis, validate_lookup_request, validate_safe_brief_draft, BasisKind,
    DiscussionScopeInput, FeedbackIntent, SafeBriefInput,
};
use crate::retry::{previous_run_error, validate_previous_run, PreviousRunRow};
use crate::text::{byte_len, byte_length, check_id, parse_version, valid_id, version_ok, version_value};
use crate::vocab::{str_eq, LookupAllowance, ProjectAccess};

verus! {

broadcast use vstd::string::group_string_axioms;

/// An author's request to save the composer draft of one document's
/// discussion.
#[derive(Debug)]
pub struct SaveDiscussionDraft {
    pub access: ProjectAccess,
    pub operation_id: String,
    pub document_id: String,
    /// The draft version the author edited; `0` when there is none yet.
    pub expected_version: String,
    pub text: String,
    pub intent: FeedbackIntent,
    pub basis: Option<BasisKind>,
    pub scope: Option<DiscussionScopeInput>,
    pub pinned_document_ids: Vec<String>,
    pub safe_brief: Option<SafeBriefInput>,
    pub previous_run_id: Option<String>,
    pub lookup: Option<LookupAllowance>,
}

/// The first refusal a draft meets before anything is read.
pub open spec fn draft_request_error(request: SaveDiscussionDraft) -> Option<ErrorCode> {
    if !valid_id(request.document_id@) || !valid_id(request.operation_id@) || !version_ok(request.expected_version@) {
        Some(ErrorCode::InvalidRequest)
    } else if byte_len(request.text@) > MAX_OUTPUT_BYTES || request.pinned_document_ids@.len() > MAX_PINNED_DOCUMENTS {
        Some(ErrorCode::InvalidRequest)
    } else if !all_ids_valid(request.pinned_document_ids@) {
        Some(ErrorCode::InvalidRequest)
    } else if request.scope matches Some(s) && byte_len(s.quote@) > MAX_SCOPE_QUOTE_BYTES {
        Some(ErrorCode::InvalidScope)
    } else if !basis_ok(request.intent, request.basis, scope_kind(request.scope)) {
        Some(ErrorCode::InvalidContinuationBasis)
    } else if lookup_request_error(request.intent, request.basis, request.lookup) is Some {
        lookup_request_error(request.intent, request.basis, request.lookup)
    } else if request.safe_brief matches Some(b) && !safe_brief_shape_ok(b) {
        Some(ErrorCode::InvalidSafeBrief)
    } else {
        None
    }
}

/// Checks a draft before anything is read: well-formed IDs and version,
/// bounded text, pins and scope quote, and a request shape a discussion
/// could later start from. A draft may hold an unconfirmed writing brief.
pub fn validate_draft_request(request: &SaveDiscussionDraft) -> (r: Result<(), CoreError>)
    ensures
        match draft_request_error(*request) {
            Some(code) => fails_with(r, code),
            None => r is Ok,
        },
{
    if let Err(e) = check_id(request.document_id.as_str()) {
        return Err(e);
    }
    if let Err(e) = check_id(request.operation_id.as_str()) {
        return Err(e);
    }
    if let Err(e) = parse_version(request.expected_version.as_str()) {
        return Err(e);
    }
    if byte_length(request.text.as_str()) > MAX_OUTPUT_BYTES || request.pinned_document_ids.len() > MAX_PINNED_DOCUMENTS {
        return Err(CoreError::new(ErrorCode::InvalidRequest, "The discussion draft is too large or has too many pinned documents."));
    }
    if let Err(e) = check_ids(&request.pinned_document_ids) {
        return Err(e);
    }
    if let Some(scope) = &request.scope {
        if byte_length(scope.quote.as_str()) > MAX_SCOPE_QUOTE_BYTES {
            return Err(CoreError::new(ErrorCode::InvalidScope, "The discussion draft scope quote is too large."));
        }
    }
    if let Err(e) = validate_feedback_basis(request.intent, request.basis, request.scope.as_ref()) {
        return Err(e);
    }
    if let Err(e) = validate_lookup_request(request.intent, request.basis, request.lookup.as_ref()) {
        return Err(e);
    }
    validate_safe_brief_draft(request.safe_brief.as_ref())
}

/// What a draft save does.
#[derive(Debug, Clone, Copy, PartialEq, Eq, Structural)]
pub enum DraftSave {
    /// The operation already saved this exact draft: its recorded result is
    /// returned and nothing is written.
    Replayed,
    /// Write the draft at this version and record the operation.
    Write { version: u64 },
}

/// The outcome once the stored draft version is read: the author must have
/// edited the current version (a missing draft is version `0`), and the save
/// writes the next one.
pub open spec fn version_step(r: Result<DraftSave, CoreError>, expected: nat, current: Result<Option<i64>, CoreError>) -> bool {
    match current {
        Err(e) => r == Err::<DraftSave, CoreError>(e),
        Ok(v) => {
            let stored: int = match v { Some(c) => c as int, None => 0 };
            if stored != expected {
                fails_with(r, ErrorCode::DraftVersionConflict)
            } else if stored >= i64::MAX {
                fails_with(r, ErrorCode::InvalidRequest)
            } else {
                r == Ok::<DraftSave, CoreError>(DraftSave::Write { version: (stored + 1) as u64 })
            }
        },
    }
}

/// The outcome once the document is known to exist: a named previous run
/// must be a terminal run of the same project and document with the same
/// intent, then the version is compared.
pub open spec fn draft_step(
    r: Result<DraftSave, CoreError>,
    request: SaveDiscussionDraft,
    previous: Result<Option<PreviousRunRow>, CoreError>,
    previous_intent: Result<FeedbackIntent, CoreError>,
    current: Result<Option<i64>, CoreError>,
) -> bool {
    let expected = version_value(request.expected_version@);
    if request.previous_run_id is None {
        version_step(r, expected, current)
    } else {
        match previous {
            Err(e) => r == Err::<DraftSave, CoreError>(e),
            Ok(row) => match previous_run_error(request.access, request.document_id@, row) {
                Some(code) => fails_with(r, code),
                None => match previous_intent {
                    Err(e) => r == Err::<DraftSave, CoreError>(e),
                    Ok(intent) => if intent != request.intent {
                        fails_with(r, ErrorCode::RetryRequestChanged)
                    } else {
                        version_step(r, expected, current)
                    },
                },
            },
        }
    }
}

/// Decides a draft save. `payload_hash` is the fingerprint of the request,
/// `receipt` the read of the payload fingerprint already recorded for the
/// operation, `document` the read of the target document, `previous` the
/// read of the named previous run's row and `previous_intent` of its intent
/// (both consulted only when a previous run is named), and `current` the
/// read of the stored draft's version. A repeated operation with the same
/// payload replays; with another payload it is refused.
pub fn save_discussion_draft(
    request: &SaveDiscussionDraft,
    payload_hash: &str,
    receipt: Result<Option<String>, CoreError>,
    document: Result<(), CoreError>,
    previous: Result<Option<PreviousRunRow>, CoreError>,
    previous_intent: Result<FeedbackIntent, CoreError>,
    current: Result<Option<i64>, CoreError>,
) -> (r: Result<DraftSave, CoreError>)
    ensures
        match draft_request_error(*request) {
            Some(code) => fails_with(r, code),
            None => match receipt {
                Err(e) => r == Err::<DraftSave, CoreError>(e),
                Ok(Some(stored)) => if stored@ == payload_hash@ {
                    r == Ok::<DraftSave, CoreError>(DraftSave::Replayed)
                } else {
                    fails_with(r, ErrorCode::OperationIdReusedWithDifferentPayload)
                },
                Ok(None) => match document {
                    Err(e) => r == Err::<DraftSave, CoreError>(e),
                    Ok(_) => draft_step(r, *request, previous, previous_intent, current),
                },
            },
        },
{
    if let Err(e) = validate_draft_request(request) {
        return Err(e);
    }
    let expected = match parse_version(request.expected_version.as_str()) {
        Ok(v) => v,
        Err(e) => return Err(e),
    };
    match receipt {
        Err(e) => return Err(e),
        Ok(Some(stored)) => {
            if str_eq(stored.as_str(), payload_hash) {
                return Ok(DraftSave::Replayed);
            }
            return Err(CoreError::new(ErrorCode::OperationIdReusedWithDifferentPayload, "This draft operation was already used for different content."));
        },
        Ok(None) => {},
    }
    if let Err(e) = document {
        return Err(e);
    }
    if request.previous_run_id.is_some() {
        let row = match previous {
            Ok(row) => row,
            Err(e) => return Err(e),
        };
        if let Err(e) = validate_previous_run(&request.access, request.document_id.as_str(), &row) {
            return Err(e);
        }
        let intent = match previous_intent {
            Ok(i) => i,
            Err(e) => return Err(e),
        };
        if intent != request.intent {
            return Err(CoreError::new(ErrorCode::RetryRequestChanged, "The saved retry intent changed. Start a new discussion instead."));
        }
    }
    let stored: i64 = match current {
        Err(e) => return Err(e),
        Ok(Some(c)) => c,
        Ok(None) => 0,
    };
    if stored < 0 || stored as u64 != expected {
        return Err(CoreError::new(ErrorCode::DraftVersionConflict, "The composer draft changed; reload it before saving."));
    }
    if stored == i64::MAX {
        return Err(CoreError::new(ErrorCode::InvalidRequest, "The draft version is exhausted."));
    }
    Ok(DraftSave::Write { version: (stored + 1) as u64 })
}

/// A draft's version is a compare-and-swap counter: a save that writes
/// writes the version after the one it expected; a later save that still
/// expects the replaced version is refused as a conflict; and one that
/// expects the written version writes the next.
pub proof fn law_draft_versions_advance(expected: nat, stored: Option<i64>, written: u64)
    requires
        version_step(Ok(DraftSave::Write { version: written }), expected, Ok(stored)),
    ensures
        written == expected + 1,
        forall|r: Result<DraftSave, CoreError>| version_step(r, expected, Ok(Some(written as i64)))
            ==> fails_with(r, ErrorCode::DraftVersionConflict),
        written < i64::MAX ==> version_step(Ok(DraftSave::Write { version: (written + 1) as u64 }), written as nat,
            Ok(Some(written as i64))),
{
}

} // verus!
