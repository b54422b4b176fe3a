//! The validators a discussion request passes before it may touch durable
//! state: the feedback basis, the lookup opt-in, the writing brief and the
//! start request as a whole.
use vstd::prelude::*;
use crate::error::{CoreError, ErrorCode, fails_with};
use crate::lifecycle::{MAX_INSTRUCTION_BYTES, MAX_PINNED_DOCUMENTS, MAX_SCOPE_QUOTE_BYTES};
use crate::text::{byte_len, byte_length, check_id, hex64, id_refusal, is_blank, is_hex64, text_is_blank, valid_id};
use crate::vocab::{str_eq, Head, LookupAllowance, ProjectAccess, ProviderBinding, ProviderTransport};

verus! {

broadcast use vstd::string::group_string_axioms;

/// The largest writing brief, in bytes.
pub const MAX_SAFE_BRIEF_BYTES: usize = 16384;

#[derive(Debug, Clone, Copy, PartialEq, Eq, Structural)]
pub enum FeedbackIntent {
    Discuss,
    ProposeEdits,
    Continue,
    WorkshopExplore,
}

#[derive(Debug, Clone, Copy, PartialEq, Eq, Structural)]
pub enum BasisKind {
    Working,
    Reviewed,
    ExplicitHistory,
}

#[derive(Debug, Clone, Copy, PartialEq, Eq, Structural)]
pub enum ScopeKind {
    Passage,
    Blocks,
    WholeDocument,
    Append,
}

/// The passage a request is about, as the editor captured it.
#[derive(Debug)]
pub struct DiscussionScopeInput {
    pub kind: ScopeKind,
    pub start: String,
    pub end: String,
    pub quote: String,
    pub source_body_hash: String,
}

/// Where an approved project-conversation brief came from.
#[derive(Debug)]
pub struct ProjectBriefOrigin {
    pub version: String,
    pub project_id: String,
    pub operation_namespace: String,
    pub conversation_id: String,
    pub message_id: String,
    pub scope_hash: String,
    pub text_hash: String,
    pub target: Head,
}

/// An author-confirmed writing brief.
#[derive(Debug)]
pub struct SafeBriefInput {
    pub text: String,
    pub confirmed: bool,
    pub origin_message_id: Option<String>,
    pub project_origin: Option<ProjectBriefOrigin>,
}

/// A request to start one chapter discussion.
#[derive(Debug)]
pub struct StartDiscussion {
    pub access: ProjectAccess,
    pub operation_id: String,
    pub expected: Head,
    pub instruction: String,
    pub intent: FeedbackIntent,
    pub basis: Option<BasisKind>,
    pub scope: Option<DiscussionScopeInput>,
    pub pinned_document_ids: Vec<String>,
    pub safe_brief: Option<SafeBriefInput>,
    pub provider_binding: Option<ProviderBinding>,
    pub previous_run_id: Option<String>,
    pub lookup: Option<LookupAllowance>,
    /// The verdict of reading workshop metadata out of the instruction;
    /// `None` when the instruction carries well-formed metadata.
    pub workshop_metadata_error: Option<String>,
}

// ------------------------------------------------------------- basis

pub open spec fn basis_ok(intent: FeedbackIntent, basis: Option<BasisKind>, scope_kind: Option<ScopeKind>) -> bool {
    match intent {
        FeedbackIntent::Continue => (basis == Some(BasisKind::Working) || basis == Some(BasisKind::Reviewed))
            && scope_kind is None,
        FeedbackIntent::WorkshopExplore => basis is None && scope_kind is None,
        _ => basis is None && scope_kind != Some(ScopeKind::Append),
    }
}

pub open spec fn scope_kind(scope: Option<DiscussionScopeInput>) -> Option<ScopeKind> {
    match scope {
        Some(s) => Some(s.kind),
        None => None,
    }
}

/// Continuation needs an explicit Working or Reviewed basis and no selection;
/// workshop exploration takes neither; other intents take no basis and no
/// append scope.
/// What a continuation without its basis is refused with.
pub open spec fn basis_refusal() -> Seq<char> {
    "Continuation needs an explicit Working draft or Reviewed story basis and no passage selection."@
}

pub fn validate_feedback_basis(intent: FeedbackIntent, basis: Option<BasisKind>, scope: Option<&DiscussionScopeInput>) -> (r: Result<(), CoreError>)
    ensures
        r is Ok <==> basis_ok(intent, basis, match scope { Some(s) => Some(s.kind), None => None }),
        r matches Err(e) ==> e.code == ErrorCode::InvalidContinuationBasis && e.message@ == basis_refusal(),
{
    let kind = match scope {
        Some(s) => Some(s.kind),
        None => None,
    };
    let valid = match intent {
        FeedbackIntent::Continue => (basis == Some(BasisKind::Working) || basis == Some(BasisKind::Reviewed)) && kind.is_none(),
        FeedbackIntent::WorkshopExplore => basis.is_none() && kind.is_none(),
        _ => basis.is_none() && kind != Some(ScopeKind::Append),
    };
    if !valid {
        return Err(CoreError::new(ErrorCode::InvalidContinuationBasis, "Continuation needs an explicit Working draft or Reviewed story basis and no passage selection."));
    }
    Ok(())
}

pub open spec fn basis_name(basis: BasisKind) -> Seq<char> {
    match basis {
        BasisKind::Working => "working"@,
        BasisKind::Reviewed => "reviewed"@,
        BasisKind::ExplicitHistory => "explicitHistory"@,
    }
}

pub fn basis_label(basis: BasisKind) -> (r: &'static str)
    ensures
        r@ == basis_name(basis),
{
    match basis {
        BasisKind::Working => "working",
        BasisKind::Reviewed => "reviewed",
        BasisKind::ExplicitHistory => "explicitHistory",
    }
}

// ------------------------------------------------------------------ lookup

pub open spec fn lookup_request_error(intent: FeedbackIntent, basis: Option<BasisKind>, lookup: Option<LookupAllowance>) -> Option<ErrorCode> {
    match lookup {
        None => None,
        Some(allowance) => if intent != FeedbackIntent::Discuss || (basis is Some && basis != Some(BasisKind::Working)) {
            Some(ErrorCode::UnsupportedContextTools)
        } else if allowance.validation_error is Some {
            Some(ErrorCode::InvalidLookupAllowance)
        } else {
            None
        },
    }
}

/// What a refused lookup opt-in is refused with.
pub open spec fn lookup_request_message(intent: FeedbackIntent, basis: Option<BasisKind>, lookup: Option<LookupAllowance>) -> Seq<char> {
    match lookup {
        Some(allowance) => if intent != FeedbackIntent::Discuss || (basis is Some && basis != Some(BasisKind::Working)) {
            "Bounded story lookup is available only for Working AuthorRoom discussions."@
        } else {
            match allowance.validation_error {
                Some(d) => d@,
                None => Seq::empty(),
            }
        },
        None => Seq::empty(),
    }
}

/// Bounded story lookup is available only for Working author-room discussions.
pub fn validate_lookup_request(intent: FeedbackIntent, basis: Option<BasisKind>, lookup: Option<&LookupAllowance>) -> (r: Result<(), CoreError>)
    ensures
        match lookup_request_error(intent, basis, match lookup { Some(l) => Some(*l), None => None }) {
            None => r is Ok,
            Some(code) => r matches Err(e) && e.code == code
                && e.message@ == lookup_request_message(intent, basis, match lookup { Some(l) => Some(*l), None => None }),
        },
{
    let allowance = match lookup {
        None => return Ok(()),
        Some(l) => l,
    };
    if intent != FeedbackIntent::Discuss || (basis.is_some() && basis != Some(BasisKind::Working)) {
        return Err(CoreError::new(ErrorCode::UnsupportedContextTools, "Bounded story lookup is available only for Working AuthorRoom discussions."));
    }
    validate_allowance(allowance)
}

/// A lookup allowance must pass its own bounds check.
pub fn validate_allowance(allowance: &LookupAllowance) -> (r: Result<(), CoreError>)
    ensures
        r is Ok <==> allowance.validation_error is None,
        r matches Err(e) ==> e.code == ErrorCode::InvalidLookupAllowance
            && (allowance.validation_error matches Some(d) && e.message@ == d@),
{
    match &allowance.validation_error {
        Some(detail) => Err(CoreError::new(ErrorCode::InvalidLookupAllowance, detail.as_str())),
        None => Ok(()),
    }
}

// ------------------------------------------------------------- safe brief

pub open spec fn project_origin_shape_ok(origin: ProjectBriefOrigin) -> bool {
    &&& origin.version@ == "project-conversation-brief.v1"@
    &&& origin.project_id@.len() > 0
    &&& origin.operation_namespace@.len() > 0
    &&& origin.conversation_id@.len() > 0
    &&& origin.message_id@.len() > 0
    &&& hex64(origin.scope_hash@)
    &&& hex64(origin.text_hash@)
}

pub open spec fn safe_brief_shape_ok(brief: SafeBriefInput) -> bool {
    &&& byte_len(brief.text@) <= MAX_SAFE_BRIEF_BYTES
    &&& (brief.origin_message_id matches Some(o) ==> valid_id(o@))
    &&& (brief.project_origin matches Some(p) ==> project_origin_shape_ok(p))
    &&& (brief.origin_message_id matches Some(o) ==> (brief.project_origin matches Some(p) ==> p.message_id@ == o@))
}

/// What a malformed brief is refused with: its first failing check.
pub open spec fn brief_shape_message(brief: SafeBriefInput) -> Seq<char> {
    if byte_len(brief.text@) > MAX_SAFE_BRIEF_BYTES {
        "The writing brief must be at most 16 KiB."@
    } else if brief.origin_message_id matches Some(o) && !valid_id(o@) {
        "The writing brief origin message ID is invalid."@
    } else if brief.project_origin matches Some(p) && !project_origin_shape_ok(p) {
        "The project conversation brief provenance is malformed."@
    } else {
        "The legacy and project brief origins do not identify the same message."@
    }
}

/// A brief is bounded, and its legacy and project origins are well formed
/// and name the same message.
pub fn validate_safe_brief_shape(brief: &SafeBriefInput) -> (r: Result<(), CoreError>)
    ensures
        r is Ok <==> safe_brief_shape_ok(*brief),
        r matches Err(e) ==> e.code == ErrorCode::InvalidSafeBrief && e.message@ == brief_shape_message(*brief),
{
    if byte_length(brief.text.as_str()) > MAX_SAFE_BRIEF_BYTES {
        return Err(CoreError::new(ErrorCode::InvalidSafeBrief, "The writing brief must be at most 16 KiB."));
    }
    if let Some(origin) = &brief.origin_message_id {
        if !crate::text::is_valid_id(origin.as_str()) {
            return Err(CoreError::new(ErrorCode::InvalidSafeBrief, "The writing brief origin message ID is invalid."));
        }
    }
    if let Some(origin) = &brief.project_origin {
        proof {
            reveal_strlit("project-conversation-brief.v1");
        }
        if !str_eq(origin.version.as_str(), "project-conversation-brief.v1")
            || origin.project_id.as_str().is_empty()
            || origin.operation_namespace.as_str().is_empty()
            || origin.conversation_id.as_str().is_empty()
            || origin.message_id.as_str().is_empty()
            || !is_hex64(origin.scope_hash.as_str())
            || !is_hex64(origin.text_hash.as_str()) {
            return Err(CoreError::new(ErrorCode::InvalidSafeBrief, "The project conversation brief provenance is malformed."));
        }
    }
    if let Some(origin_id) = &brief.origin_message_id {
        if let Some(origin) = &brief.project_origin {
            if !str_eq(origin.message_id.as_str(), origin_id.as_str()) {
                return Err(CoreError::new(ErrorCode::InvalidSafeBrief, "The legacy and project brief origins do not identify the same message."));
            }
        }
    }
    Ok(())
}

/// A saved draft may hold an unconfirmed brief, but only a well-formed one.
pub fn validate_safe_brief_draft(brief: Option<&SafeBriefInput>) -> (r: Result<(), CoreError>)
    ensures
        r is Ok <==> (brief matches Some(b) ==> safe_brief_shape_ok(*b)),
        r matches Err(e) ==> e.code == ErrorCode::InvalidSafeBrief,
{
    match brief {
        Some(b) => validate_safe_brief_shape(b),
        None => Ok(()),
    }
}

pub open spec fn brief_scope_ok(intent: FeedbackIntent, scope: Option<ScopeKind>) -> bool {
    (intent == FeedbackIntent::ProposeEdits || intent == FeedbackIntent::Continue)
        && !(intent == FeedbackIntent::ProposeEdits && !(scope == Some(ScopeKind::Passage)
        || scope == Some(ScopeKind::Blocks) || scope == Some(ScopeKind::WholeDocument)))
}

pub open spec fn safe_brief_start_ok(request: StartDiscussion) -> bool {
    request.safe_brief matches Some(brief) ==> {
        &&& safe_brief_shape_ok(brief)
        &&& !is_blank(brief.text@) && brief.confirmed
        &&& brief_scope_ok(request.intent, scope_kind(request.scope))
    }
}

/// What a brief refused at start is refused with.
pub open spec fn brief_start_message(request: StartDiscussion) -> Seq<char> {
    match request.safe_brief {
        Some(brief) => if !safe_brief_shape_ok(brief) {
            brief_shape_message(brief)
        } else if is_blank(brief.text@) || !brief.confirmed {
            "A writing brief must be nonempty and explicitly confirmed before use."@
        } else {
            "A writing brief is available only for a passage revision or chapter continuation."@
        },
        None => Seq::empty(),
    }
}

/// A brief used at start must be confirmed, nonblank, and serve a passage
/// revision or a chapter continuation.
pub fn validate_safe_brief_start(request: &StartDiscussion) -> (r: Result<(), CoreError>)
    ensures
        r is Ok <==> safe_brief_start_ok(*request),
        r matches Err(e) ==> e.code == ErrorCode::InvalidSafeBrief && e.message@ == brief_start_message(*request),
{
    let brief = match &request.safe_brief {
        None => return Ok(()),
        Some(b) => b,
    };
    if let Err(e) = validate_safe_brief_shape(brief) {
        return Err(e);
    }
    if text_is_blank(brief.text.as_str()) || !brief.confirmed {
        return Err(CoreError::new(ErrorCode::InvalidSafeBrief, "A writing brief must be nonempty and explicitly confirmed before use."));
    }
    let kind = match &request.scope {
        Some(s) => Some(s.kind),
        None => None,
    };
    let scope_ok = kind == Some(ScopeKind::Passage) || kind == Some(ScopeKind::Blocks) || kind == Some(ScopeKind::WholeDocument);
    if !(request.intent == FeedbackIntent::ProposeEdits || request.intent == FeedbackIntent::Continue)
        || (request.intent == FeedbackIntent::ProposeEdits && !scope_ok) {
        return Err(CoreError::new(ErrorCode::InvalidSafeBrief, "A writing brief is available only for a passage revision or chapter continuation."));
    }
    Ok(())
}

// ------------------------------------------------------------------ start

pub open spec fn all_ids_valid(ids: Seq<String>) -> bool {
    forall|i: int| 0 <= i < ids.len() ==> valid_id(#[trigger] ids[i]@)
}

/// Every identifier of a list is well formed.
pub fn check_ids(ids: &Vec<String>) -> (r: Result<(), CoreError>)
    ensures
        r is Ok <==> all_ids_valid(ids@),
        r matches Err(e) ==> e.code == ErrorCode::InvalidRequest && e.message@ == id_refusal(),
{
    let n = ids.len();
    let mut i: usize = 0;
    while i < n
        invariant
            n == ids@.len(),
            0 <= i <= n,
            forall|j: int| 0 <= j < i ==> valid_id(#[trigger] ids@[j]@),
        decreases n - i,
    {
        if let Err(e) = check_id(ids[i].as_str()) {
            assert(!valid_id(ids@[i as int]@));
            return Err(e);
        }
        i += 1;
    }
    Ok(())
}

pub open spec fn scope_shape_ok(scope: Option<DiscussionScopeInput>) -> bool {
    scope matches Some(s) ==> byte_len(s.quote@) <= MAX_SCOPE_QUOTE_BYTES && hex64(s.source_body_hash@)
}

/// The first refusal a start request meets, in the order it is checked.
pub open spec fn start_error(request: StartDiscussion) -> Option<ErrorCode> {
    let lookup = lookup_request_error(request.intent, request.basis, request.lookup);
    if !basis_ok(request.intent, request.basis, scope_kind(request.scope)) {
        Some(ErrorCode::InvalidContinuationBasis)
    } else if lookup is Some {
        lookup
    } else if !valid_id(request.operation_id@) || !valid_id(request.expected.document_id@) {
        Some(ErrorCode::InvalidRequest)
    } else if is_blank(request.instruction@) || byte_len(request.instruction@) > MAX_INSTRUCTION_BYTES {
        Some(ErrorCode::InvalidRequest)
    } else if request.pinned_document_ids@.len() > MAX_PINNED_DOCUMENTS {
        Some(ErrorCode::InvalidRequest)
    } else if !all_ids_valid(request.pinned_document_ids@) {
        Some(ErrorCode::InvalidRequest)
    } else if request.previous_run_id matches Some(p) && !valid_id(p@) {
        Some(ErrorCode::InvalidRequest)
    } else if request.provider_binding matches Some(b) && b.validation_error is Some {
        Some(ErrorCode::InvalidProviderBinding)
    } else if request.provider_binding matches Some(b) && b.transport == ProviderTransport::Http && request.lookup is Some {
        Some(ErrorCode::UnsupportedProviderFeature)
    } else if !scope_shape_ok(request.scope) {
        Some(ErrorCode::InvalidScope)
    } else if !safe_brief_start_ok(request) {
        Some(ErrorCode::InvalidSafeBrief)
    } else if request.intent == FeedbackIntent::WorkshopExplore && (request.previous_run_id is Some
        || request.lookup is Some || request.safe_brief is Some) {
        Some(ErrorCode::InvalidWorkshop)
    } else if request.intent == FeedbackIntent::WorkshopExplore && request.workshop_metadata_error is Some {
        Some(ErrorCode::InvalidWorkshop)
    } else {
        None
    }
}

/// What the first refusal a start request meets says.
pub open spec fn start_refusal_message(request: StartDiscussion) -> Seq<char> {
    let lookup = lookup_request_error(request.intent, request.basis, request.lookup);
    if !basis_ok(request.intent, request.basis, scope_kind(request.scope)) {
        basis_refusal()
    } else if lookup is Some {
        lookup_request_message(request.intent, request.basis, request.lookup)
    } else if !valid_id(request.operation_id@) || !valid_id(request.expected.document_id@) {
        id_refusal()
    } else if is_blank(request.instruction@) || byte_len(request.instruction@) > MAX_INSTRUCTION_BYTES {
        "A discussion instruction must be nonempty and at most 64 KiB."@
    } else if request.pinned_document_ids@.len() > MAX_PINNED_DOCUMENTS {
        "A discussion may pin at most 64 source documents."@
    } else if !all_ids_valid(request.pinned_document_ids@) {
        id_refusal()
    } else if request.previous_run_id matches Some(p) && !valid_id(p@) {
        id_refusal()
    } else if request.provider_binding matches Some(b) && b.validation_error is Some {
        match request.provider_binding {
            Some(b) => match b.validation_error {
                Some(m) => m@,
                None => Seq::empty(),
            },
            None => Seq::empty(),
        }
    } else if request.provider_binding matches Some(b) && b.transport == ProviderTransport::Http && request.lookup is Some {
        "OpenAI-compatible HTTP discussions do not support bounded story lookup yet."@
    } else if !scope_shape_ok(request.scope) {
        "A discussion scope quote or source hash is invalid."@
    } else if !safe_brief_start_ok(request) {
        brief_start_message(request)
    } else if request.intent == FeedbackIntent::WorkshopExplore && (request.previous_run_id is Some
        || request.lookup is Some || request.safe_brief is Some) {
        "Workshop exploration cannot resume or use writing-only request features."@
    } else {
        match request.workshop_metadata_error {
            Some(m) => m@,
            None => Seq::empty(),
        }
    }
}

/// Checks a start request before any durable state is read. A refusal is
/// exactly the first one the request meets: its code and its message.
pub fn validate_start(request: &StartDiscussion) -> (r: Result<(), CoreError>)
    ensures
        match start_error(*request) {
            None => r is Ok,
            Some(code) => r matches Err(e) && e.code == code && e.message@ == start_refusal_message(*request),
        },
{
    if let Err(e) = validate_feedback_basis(request.intent, request.basis, request.scope.as_ref()) {
        return Err(e);
    }
    if let Err(e) = validate_lookup_request(request.intent, request.basis, request.lookup.as_ref()) {
        return Err(e);
    }
    if let Err(e) = check_id(request.operation_id.as_str()) {
        return Err(e);
    }
    if let Err(e) = check_id(request.expected.document_id.as_str()) {
        return Err(e);
    }
    if text_is_blank(request.instruction.as_str()) || byte_length(request.instruction.as_str()) > MAX_INSTRUCTION_BYTES {
        return Err(CoreError::new(ErrorCode::InvalidRequest, "A discussion instruction must be nonempty and at most 64 KiB."));
    }
    if request.pinned_document_ids.len() > MAX_PINNED_DOCUMENTS {
        return Err(CoreError::new(ErrorCode::InvalidRequest, "A discussion may pin at most 64 source documents."));
    }
    if let Err(e) = check_ids(&request.pinned_document_ids) {
        return Err(e);
    }
    if let Some(run_id) = &request.previous_run_id {
        if let Err(e) = check_id(run_id.as_str()) {
            return Err(e);
        }
    }
    if let Some(binding) = &request.provider_binding {
        if let Some(message) = &binding.validation_error {
            return Err(CoreError::new(ErrorCode::InvalidProviderBinding, message.as_str()));
        }
        if binding.transport == ProviderTransport::Http && request.lookup.is_some() {
            return Err(CoreError::new(ErrorCode::UnsupportedProviderFeature, "OpenAI-compatible HTTP discussions do not support bounded story lookup yet."));
        }
    }
    if let Some(scope) = &request.scope {
        if byte_length(scope.quote.as_str()) > MAX_SCOPE_QUOTE_BYTES || !is_hex64(scope.source_body_hash.as_str()) {
            return Err(CoreError::new(ErrorCode::InvalidScope, "A discussion scope quote or source hash is invalid."));
        }
    }
    if let Err(e) = validate_safe_brief_start(request) {
        return Err(e);
    }
    if request.intent == FeedbackIntent::WorkshopExplore {
        if request.previous_run_id.is_some() || request.lookup.is_some() || request.safe_brief.is_some() {
            return Err(CoreError::new(ErrorCode::InvalidWorkshop, "Workshop exploration cannot resume or use writing-only request features."));
        }
        if let Some(message) = &request.workshop_metadata_error {
            return Err(CoreError::new(ErrorCode::InvalidWorkshop, message.as_str()));
        }
    }
    Ok(())
}

} // verus!
