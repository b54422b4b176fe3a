//! Durable author guidance: how a save request is checked, how it moves a
//! guidance head through immutable versions, and where request-scoped
//! guidance may be used.
use vstd::prelude::*;
use crate::error::{CoreError, ErrorCode, fails_with};
use crate::text::{check_id, valid_id};
use crate::vocab::{opt_view, str_eq, opt_str_eq, ProjectAccess};

verus! {

broadcast use vstd::string::group_string_axioms;

/// How far a piece of guidance reaches.
#[derive(Debug, Clone, Copy, PartialEq, Eq, Structural)]
pub enum GuidanceScope {
    /// One later request on one document, used once.
    Request,
    /// Every request on one document.
    Document,
    /// Every request in the project.
    Project,
}

impl GuidanceScope {
    pub open spec fn spec_name(self) -> Seq<char> {
        match self {
            GuidanceScope::Request => "request"@,
            GuidanceScope::Document => "document"@,
            GuidanceScope::Project => "project"@,
        }
    }

    /// Reads a stored scope back.
    pub fn parse(value: &str) -> (r: Result<GuidanceScope, CoreError>)
        ensures
            r matches Ok(s) ==> s.spec_name() == value@,
            r is Err ==> forall|s: GuidanceScope| s.spec_name() != value@,
            r matches Err(e) ==> e.code == ErrorCode::InvalidProject,
    {
        proof {
            reveal_strlit("request");
            reveal_strlit("document");
            reveal_strlit("project");
        }
        if str_eq(value, "request") {
            Ok(GuidanceScope::Request)
        } else if str_eq(value, "document") {
            Ok(GuidanceScope::Document)
        } else if str_eq(value, "project") {
            Ok(GuidanceScope::Project)
        } else {
            assert forall|s: GuidanceScope| s.spec_name() != value@ by {
                match s {
                    GuidanceScope::Request => {},
                    GuidanceScope::Document => {},
                    GuidanceScope::Project => {},
                }
            }
            Err(CoreError::new(ErrorCode::InvalidProject, "The saved guidance has an unknown scope."))
        }
    }
}

/// The stored name of a guidance scope.
pub fn scope_as_str(scope: GuidanceScope) -> (r: &'static str)
    ensures
        r@ == scope.spec_name(),
{
    match scope {
        GuidanceScope::Request => "request",
        GuidanceScope::Document => "document",
        GuidanceScope::Project => "project",
    }
}

/// An author's request to create, edit or retire one piece of guidance.
#[derive(Debug)]
pub struct SaveGuidance {
    pub access: ProjectAccess,
    pub operation_id: String,
    pub guidance_id: String,
    /// The version the author edited; `0` to create new guidance.
    pub expected_version: String,
    pub text: String,
    pub scope: GuidanceScope,
    pub document_id: Option<String>,
    pub active: bool,
    pub origin_message_id: Option<String>,
}

/// The current version a guidance head points to.
#[derive(Debug)]
pub struct GuidanceHead {
    pub guidance_id: String,
    pub version_id: String,
    pub version: u64,
    pub scope: GuidanceScope,
    pub document_id: Option<String>,
    pub text: String,
    pub text_hash: String,
    pub active: bool,
    pub origin_message_id: Option<String>,
    pub created_at: String,
}

// ------------------------------------------------------------------- scope

pub open spec fn scope_error(request: SaveGuidance, document_exists: Result<bool, CoreError>) -> Option<ErrorCode> {
    match request.scope {
        GuidanceScope::Project => if request.document_id is Some { Some(ErrorCode::InvalidRequest) } else { None },
        _ => match request.document_id {
            None => Some(ErrorCode::InvalidRequest),
            Some(d) => if !valid_id(d@) {
                Some(ErrorCode::InvalidRequest)
            } else {
                match document_exists {
                    Err(e) => Some(e.code),
                    Ok(false) => Some(ErrorCode::DocumentNotFound),
                    Ok(true) => None,
                }
            },
        },
    }
}

/// Project guidance targets no document; document and request guidance
/// target one ordinary document of the project. `document_exists` is the
/// read of whether the target is such a document.
pub fn validate_scope(request: &SaveGuidance, document_exists: Result<bool, CoreError>) -> (r: Result<(), CoreError>)
    ensures
        match scope_error(*request, document_exists) {
            Some(code) => fails_with(r, code),
            None => r is Ok,
        },
{
    match request.scope {
        GuidanceScope::Project => {
            if request.document_id.is_some() {
                return Err(CoreError::new(ErrorCode::InvalidRequest, "Project guidance cannot target a document."));
            }
            Ok(())
        },
        _ => {
            let document_id = match &request.document_id {
                Some(d) => d,
                None => return Err(CoreError::new(ErrorCode::InvalidRequest, "Document and request guidance require a document target.")),
            };
            if let Err(e) = check_id(document_id.as_str()) {
                return Err(e);
            }
            match document_exists {
                Err(e) => Err(e),
                Ok(false) => Err(CoreError::new(ErrorCode::DocumentNotFound, "The guidance target document is not available in this project.")),
                Ok(true) => Ok(()),
            }
        },
    }
}

pub open spec fn origin_error(request: SaveGuidance, thread_document: Result<Option<String>, CoreError>) -> Option<ErrorCode> {
    match request.origin_message_id {
        None => None,
        Some(m) => if !valid_id(m@) {
            Some(ErrorCode::InvalidRequest)
        } else {
            match thread_document {
                Err(e) => Some(e.code),
                Ok(None) => Some(ErrorCode::GuidanceOriginNotFound),
                Ok(Some(doc)) => if request.scope != GuidanceScope::Project && opt_view(request.document_id) != Some(doc@) {
                    Some(ErrorCode::GuidanceOriginMismatch)
                } else {
                    None
                },
            }
        },
    }
}

/// Guidance taken from a discussion message names a message of the project,
/// and document-scoped guidance must come from its own document's thread.
/// `thread_document` is the read of the document whose thread holds the
/// message, if the message exists.
pub fn validate_origin(request: &SaveGuidance, thread_document: Result<Option<String>, CoreError>) -> (r: Result<(), CoreError>)
    ensures
        match origin_error(*request, thread_document) {
            Some(code) => fails_with(r, code),
            None => r is Ok,
        },
{
    let message_id = match &request.origin_message_id {
        None => return Ok(()),
        Some(m) => m,
    };
    if let Err(e) = check_id(message_id.as_str()) {
        return Err(e);
    }
    let doc = match thread_document {
        Err(e) => return Err(e),
        Ok(None) => return Err(CoreError::new(ErrorCode::GuidanceOriginNotFound, "The guidance provenance message is not available in this project.")),
        Ok(Some(d)) => d,
    };
    if request.scope != GuidanceScope::Project {
        let same = match &request.document_id {
            Some(d) => str_eq(d.as_str(), doc.as_str()),
            None => false,
        };
        if !same {
            return Err(CoreError::new(ErrorCode::GuidanceOriginMismatch, "Document-scoped guidance provenance must belong to its target thread."));
        }
    }
    Ok(())
}

// -------------------------------------------------------------------- save

/// What a save does to the guidance head.
#[derive(Debug, Clone, Copy, PartialEq, Eq, Structural)]
pub enum GuidancePlan {
    /// The request repeats the current version exactly: nothing is appended
    /// and the story-source epoch stays as it is.
    Unchanged,
    /// Append this version and point the head at it (creating the head for
    /// new guidance); every such change advances the story-source epoch.
    Append { version: u64, create_head: bool },
}

/// The request repeats what the head already holds.
pub open spec fn same_content(head: GuidanceHead, request: SaveGuidance) -> bool {
    &&& head.scope == request.scope
    &&& opt_view(head.document_id) == opt_view(request.document_id)
    &&& head.text@ == request.text@
    &&& head.active == request.active
    &&& opt_view(head.origin_message_id) == opt_view(request.origin_message_id)
}

pub open spec fn save_error(expected: u64, current: Option<GuidanceHead>) -> Option<ErrorCode> {
    match current {
        None => if expected == 0 { None } else { Some(ErrorCode::GuidanceVersionConflict) },
        Some(head) => if expected == 0 {
            Some(ErrorCode::GuidanceConflict)
        } else if head.version != expected {
            Some(ErrorCode::GuidanceVersionConflict)
        } else {
            None
        },
    }
}

pub open spec fn save_plan(request: SaveGuidance, current: Option<GuidanceHead>) -> Option<GuidancePlan> {
    match current {
        None => Some(GuidancePlan::Append { version: 1, create_head: true }),
        Some(head) => if same_content(head, request) {
            Some(GuidancePlan::Unchanged)
        } else if head.version >= u64::MAX {
            None
        } else {
            Some(GuidancePlan::Append { version: (head.version + 1) as u64, create_head: false })
        },
    }
}

/// Decides a guidance save against the current head: creating needs no head,
/// editing needs the head at the expected version (compare-and-swap), an
/// exact repeat changes nothing, and any change appends the next version.
/// `expected` is the request's parsed expected version and `current` the
/// read of the head.
pub fn plan_guidance_save(request: &SaveGuidance, expected: u64, current: &Option<GuidanceHead>) -> (r: Result<GuidancePlan, CoreError>)
    ensures
        match save_error(expected, *current) {
            Some(code) => fails_with(r, code),
            None => match save_plan(*request, *current) {
                Some(plan) => r == Ok::<GuidancePlan, CoreError>(plan),
                None => fails_with(r, ErrorCode::InvalidRequest),
            },
        },
{
    let head = match current {
        None => {
            if expected != 0 {
                return Err(CoreError::new(ErrorCode::GuidanceVersionConflict, "The requested guidance version is not available."));
            }
            return Ok(GuidancePlan::Append { version: 1, create_head: true });
        },
        Some(h) => h,
    };
    if expected == 0 {
        return Err(CoreError::new(ErrorCode::GuidanceConflict, "This guidance ID already has a current version."));
    }
    if head.version != expected {
        return Err(CoreError::new(ErrorCode::GuidanceVersionConflict, "The guidance changed before this edit was saved."));
    }
    if head.scope == request.scope && opt_str_eq(&head.document_id, &request.document_id)
        && str_eq(head.text.as_str(), request.text.as_str()) && head.active == request.active
        && opt_str_eq(&head.origin_message_id, &request.origin_message_id) {
        return Ok(GuidancePlan::Unchanged);
    }
    if head.version == u64::MAX {
        return Err(CoreError::new(ErrorCode::InvalidRequest, "The guidance version is exhausted."));
    }
    Ok(GuidancePlan::Append { version: head.version + 1, create_head: false })
}

/// An operation ID names one guidance save: a stored receipt replays only
/// for the same project, the same payload and the same kind of operation.
pub fn check_guidance_receipt(
    request: &SaveGuidance,
    payload_hash: &str,
    stored_project_id: &str,
    stored_payload_hash: &str,
    stored_kind: &str,
) -> (r: Result<(), CoreError>)
    ensures
        r is Ok <==> (stored_project_id@ == request.access.project_id@ && stored_payload_hash@ == payload_hash@
            && stored_kind@ == "saveGuidance"@),
        r matches Err(e) ==> e.code == ErrorCode::OperationIdReusedWithDifferentPayload,
{
    if !str_eq(stored_project_id, request.access.project_id.as_str()) || !str_eq(stored_payload_hash, payload_hash)
        || !str_eq(stored_kind, "saveGuidance") {
        return Err(CoreError::new(ErrorCode::OperationIdReusedWithDifferentPayload, "This operation ID was already used for another guidance request."));
    }
    Ok(())
}

/// Request guidance is used only on the document it targets.
pub fn check_request_use_target(version_document: &Option<String>, target_document: &str) -> (r: Result<(), CoreError>)
    ensures
        r is Ok <==> opt_view(*version_document) == Some(target_document@),
        r matches Err(e) ==> e.code == ErrorCode::GuidanceTargetMismatch,
{
    let same = match version_document {
        Some(d) => str_eq(d.as_str(), target_document),
        None => false,
    };
    if !same {
        return Err(CoreError::new(ErrorCode::GuidanceTargetMismatch, "Request guidance must target the snapshot document."));
    }
    Ok(())
}

// ---------------------------------------------------------------------- laws

/// Versions only move forward: a save that changes guidance appends exactly
/// the version after the current one (the first version for new guidance).
pub proof fn law_guidance_versions_advance(request: SaveGuidance, current: Option<GuidanceHead>, version: u64, create_head: bool)
    requires
        save_plan(request, current) == Some(GuidancePlan::Append { version, create_head }),
    ensures
        current matches Some(head) ==> version == head.version + 1 && !create_head,
        current is None ==> version == 1 && create_head,
{
}

/// Re-saving exactly what the head holds, at its version, is a no-op: the
/// plan is `Unchanged`, so no version is appended and the story-source epoch
/// does not move.
pub proof fn law_identical_save_is_noop(request: SaveGuidance, head: GuidanceHead)
    requires
        same_content(head, request),
        head.version != 0,
    ensures
        save_error(head.version, Some(head)) is None,
        save_plan(request, Some(head)) == Some(GuidancePlan::Unchanged),
{
}


// ------------------------------------------------------------ request uses

/// A guidance version pinned into a frozen snapshot.
#[derive(Debug)]
pub struct FrozenGuidance {
    pub project_id: String,
    pub handle: String,
    pub guidance_id: String,
    pub version_id: String,
    pub scope: GuidanceScope,
    pub document_id: Option<String>,
    pub text_hash: String,
}

/// The current head of a guidance, as a retry reads it.
#[derive(Debug)]
pub struct HeadState {
    pub active: bool,
    pub version_id: String,
}

/// What a retry reads for one frozen guidance record: the current head and
/// whether the original request's use of it is recorded in this project.
#[derive(Debug)]
pub struct RetryGuidanceReads {
    pub head: Result<Option<HeadState>, CoreError>,
    pub original_use: Result<bool, CoreError>,
}

pub open spec fn retry_record_error(record: FrozenGuidance, reads: RetryGuidanceReads) -> Option<ErrorCode> {
    if record.scope != GuidanceScope::Request {
        None
    } else {
        match reads.head {
            Err(e) => Some(e.code),
            Ok(head) => if !(head matches Some(h) && h.active && h.version_id@ == record.version_id@) {
                Some(ErrorCode::RetryGuidanceChanged)
            } else {
                match reads.original_use {
                    Err(e) => Some(e.code),
                    Ok(false) => Some(ErrorCode::InvalidContext),
                    Ok(true) => None,
                }
            },
        }
    }
}

/// A retry reuses exactly the one-use instructions of its original attempt,
/// and only while each is still the active current version with a recorded
/// original use. Returns the positions of the reused records, in order.
/// `reads[i]` is what was read for `records[i]`.
pub fn retry_request_guidance(records: &Vec<FrozenGuidance>, reads: &Vec<RetryGuidanceReads>) -> (r: Result<Vec<usize>, CoreError>)
    requires
        reads@.len() == records@.len(),
    ensures
        r is Ok <==> forall|i: int| 0 <= i < records@.len() ==> retry_record_error(#[trigger] records@[i], reads@[i]) is None,
        r matches Ok(v) ==> forall|k: int| 0 <= k < v@.len() ==> (#[trigger] v@[k]) < records@.len()
            && records@[v@[k] as int].scope == GuidanceScope::Request,
        r matches Ok(v) ==> forall|i: int| 0 <= i < records@.len() && records@[i].scope == GuidanceScope::Request
            ==> v@.contains(i as usize),
        r matches Err(e) ==> exists|i: int| 0 <= i < records@.len() && retry_record_error(records@[i], reads@[i]) == Some(e.code),
{
    let mut reused: Vec<usize> = Vec::new();
    let n = records.len();
    let mut i: usize = 0;
    while i < n
        invariant
            n == records@.len(),
            reads@.len() == n,
            0 <= i <= n,
            forall|j: int| 0 <= j < i ==> retry_record_error(#[trigger] records@[j], reads@[j]) is None,
            forall|k: int| 0 <= k < reused@.len() ==> (#[trigger] reused@[k]) < i && records@[reused@[k] as int].scope == GuidanceScope::Request,
            forall|j: int| 0 <= j < i && records@[j].scope == GuidanceScope::Request ==> reused@.contains(j as usize),
        decreases n - i,
    {
        let record = &records[i];
        if record.scope == GuidanceScope::Request {
            let current = match &reads[i].head {
                Err(e) => return Err(e.clone()),
                Ok(h) => h,
            };
            let same = match current {
                Some(h) => h.active && str_eq(h.version_id.as_str(), record.version_id.as_str()),
                None => false,
            };
            if !same {
                return Err(CoreError::new(ErrorCode::RetryGuidanceChanged, "Guidance for this attempt was edited or retired. Start a new request with the current guidance."));
            }
            match &reads[i].original_use {
                Err(e) => return Err(e.clone()),
                Ok(false) => return Err(CoreError::new(ErrorCode::InvalidContext, "The retry instruction has no matching original request use in this project.")),
                Ok(true) => {},
            }
            let ghost before = reused@;
            reused.push(i);
            assert(reused@.last() == i);
            assert forall|j: int| 0 <= j < i + 1 && records@[j].scope == GuidanceScope::Request implies reused@.contains(j as usize) by {
                if j < i {
                    assert(before.contains(j as usize));
                    let k = choose|k: int| 0 <= k < before.len() && before[k] == j as usize;
                    assert(reused@[k] == j as usize);
                } else {
                    assert(reused@[reused@.len() - 1] == i);
                }
            }
        }
        i += 1;
    }
    Ok(reused)
}

pub open spec fn request_use_error(
    record: FrozenGuidance,
    snapshot_project: Seq<char>,
    target_document: Seq<char>,
    version_verdict: Result<(), CoreError>,
    pinned: bool,
) -> Option<ErrorCode> {
    if record.project_id@ != snapshot_project {
        Some(ErrorCode::InvalidContext)
    } else {
        match version_verdict {
            Err(e) => Some(e.code),
            Ok(()) => if !pinned {
                Some(ErrorCode::InvalidContext)
            } else if opt_view(record.document_id) != Some(target_document) {
                Some(ErrorCode::GuidanceTargetMismatch)
            } else {
                None
            },
        }
    }
}

/// Request guidance is consumed only by a request of its own project that
/// pinned it into its snapshot, on the document it targets. `version_verdict`
/// is the check that the version belongs to the project and target, and
/// `pinned` whether the snapshot pins the exact version and text.
pub fn check_request_use(
    record: &FrozenGuidance,
    snapshot_project: &str,
    target_document: &str,
    version_verdict: Result<(), CoreError>,
    pinned: bool,
) -> (r: Result<(), CoreError>)
    ensures
        match request_use_error(*record, snapshot_project@, target_document@, version_verdict, pinned) {
            Some(code) => fails_with(r, code),
            None => r is Ok,
        },
{
    if !str_eq(record.project_id.as_str(), snapshot_project) {
        return Err(CoreError::new(ErrorCode::InvalidContext, "Request guidance belongs to another project."));
    }
    if let Err(e) = version_verdict {
        return Err(e);
    }
    if !pinned {
        return Err(CoreError::new(ErrorCode::InvalidContext, "Request guidance must be pinned before it is consumed."));
    }
    check_request_use_target(&record.document_id, target_document)
}

/// The handle a snapshot gives a pinned guidance version.
pub open spec fn guidance_handle(version_id: Seq<char>) -> Seq<char> {
    "guidance-"@ + version_id
}

/// A stored guidance pin names valid identities, the version's own handle
/// and a valid text fingerprint, and that fingerprint is the pinned
/// version's. `hash_valid` says whether the pin's text fingerprint has the
/// guidance hash format; `version_text_hash` is the stored fingerprint of the
/// version it names, if that version exists.
pub fn check_guidance_pin(
    snapshot_id: &str,
    version_id: &str,
    handle: &str,
    text_hash: &str,
    hash_valid: bool,
    version_text_hash: &Option<String>,
) -> (r: Result<(), CoreError>)
    ensures
        !valid_id(snapshot_id@) || !valid_id(version_id@) ==> fails_with(r, ErrorCode::InvalidRequest),
        valid_id(snapshot_id@) && valid_id(version_id@) ==> if handle@ == guidance_handle(version_id@) && hash_valid
            && opt_view(*version_text_hash) == Some(text_hash@) {
            r is Ok
        } else {
            fails_with(r, ErrorCode::InvalidProject)
        },
{
    if let Err(e) = check_id(snapshot_id) {
        return Err(e);
    }
    if let Err(e) = check_id(version_id) {
        return Err(e);
    }
    let mut expected = "guidance-".to_owned();
    expected.append(version_id);
    proof {
        reveal_strlit("guidance-");
    }
    if !str_eq(handle, expected.as_str()) || !hash_valid {
        return Err(CoreError::new(ErrorCode::InvalidProject, "A snapshot guidance pin has invalid metadata."));
    }
    let matches = match version_text_hash {
        Some(h) => str_eq(h.as_str(), text_hash),
        None => false,
    };
    if !matches {
        return Err(CoreError::new(ErrorCode::InvalidProject, "A snapshot guidance pin does not match its version."));
    }
    Ok(())
}

/// A stored guidance version's links resolve. `version_verdict` is what the
/// version row's own conversion gave; `document_known` is whether its target
/// is a stored ordinary document (`None` when it has no target), and
/// `message_known` whether its provenance message is stored (`None` when it
/// has none). A failed conversion keeps its own error; a dangling link is
/// `InvalidProject`.
pub fn check_guidance_version_links(
    version_verdict: Result<(), CoreError>,
    document_known: Option<bool>,
    message_known: Option<bool>,
) -> (r: Result<(), CoreError>)
    ensures
        version_verdict matches Err(e) ==> r == Err::<(), CoreError>(e),
        version_verdict is Ok ==> if document_known != Some(false) && message_known != Some(false) {
            r is Ok
        } else {
            fails_with(r, ErrorCode::InvalidProject)
        },
{
    if let Err(e) = version_verdict {
        return Err(e);
    }
    if let Some(false) = document_known {
        return Err(CoreError::new(ErrorCode::InvalidProject, "A guidance version targets an unknown document."));
    }
    if let Some(false) = message_known {
        return Err(CoreError::new(ErrorCode::InvalidProject, "A guidance version references an unknown provenance message."));
    }
    Ok(())
}

/// A stored guidance head names valid identities and points to a version of
/// its own guidance. `version_owner` is the guidance the named version
/// belongs to, if that version exists.
pub fn check_guidance_head_row(guidance_id: &str, version_id: &str, version_owner: &Option<String>) -> (r: Result<(), CoreError>)
    ensures
        !valid_id(guidance_id@) || !valid_id(version_id@) ==> fails_with(r, ErrorCode::InvalidRequest),
        valid_id(guidance_id@) && valid_id(version_id@) ==> if opt_view(*version_owner) == Some(guidance_id@) {
            r is Ok
        } else {
            fails_with(r, ErrorCode::InvalidProject)
        },
{
    if let Err(e) = check_id(guidance_id) {
        return Err(e);
    }
    if let Err(e) = check_id(version_id) {
        return Err(e);
    }
    let owned = match version_owner {
        Some(o) => str_eq(o.as_str(), guidance_id),
        None => false,
    };
    if !owned {
        return Err(CoreError::new(ErrorCode::InvalidProject, "A guidance head does not point to its project's version."));
    }
    Ok(())
}

/// A stored guidance operation receipt names valid identities, records a
/// guidance save, and carries a payload fingerprint of the guidance hash
/// format (`payload_hash_valid`).
pub fn check_guidance_receipt_row(
    namespace: &str,
    operation_id: &str,
    project_id: &str,
    kind: &str,
    payload_hash_valid: bool,
) -> (r: Result<(), CoreError>)
    ensures
        !valid_id(namespace@) || !valid_id(operation_id@) || !valid_id(project_id@) ==> fails_with(r, ErrorCode::InvalidRequest),
        valid_id(namespace@) && valid_id(operation_id@) && valid_id(project_id@) ==> if kind@ == "saveGuidance"@ && payload_hash_valid {
            r is Ok
        } else {
            fails_with(r, ErrorCode::InvalidProject)
        },
{
    if let Err(e) = check_id(namespace) {
        return Err(e);
    }
    if let Err(e) = check_id(operation_id) {
        return Err(e);
    }
    if let Err(e) = check_id(project_id) {
        return Err(e);
    }
    proof {
        reveal_strlit("saveGuidance");
    }
    if !str_eq(kind, "saveGuidance") || !payload_hash_valid {
        return Err(CoreError::new(ErrorCode::InvalidProject, "A guidance operation receipt has invalid metadata."));
    }
    Ok(())
}

/// A recorded use of request guidance points to a request-scoped version
/// (`version_scope` is the stored scope of the version it names, if that
/// version exists) and to a stored snapshot (`snapshot_known`).
pub fn check_guidance_use_row(version_scope: &Option<String>, snapshot_known: bool) -> (r: Result<(), CoreError>)
    ensures
        r is Ok <==> (opt_view(*version_scope) == Some("request"@) && snapshot_known),
        r matches Err(e) ==> e.code == ErrorCode::InvalidProject,
{
    proof {
        reveal_strlit("request");
    }
    let request = match version_scope {
        Some(s) => str_eq(s.as_str(), "request"),
        None => false,
    };
    if !request {
        return Err(CoreError::new(ErrorCode::InvalidProject, "A request guidance use points to a non-request version."));
    }
    if !snapshot_known {
        return Err(CoreError::new(ErrorCode::InvalidProject, "A request guidance use points to an unknown snapshot."));
    }
    Ok(())
}

/// A save is a no-op only when it repeats the head exactly: scope, target
/// document, text, active flag and origin message all equal. Any difference
/// (deactivating the guidance, say) appends the version after the head's.
pub proof fn law_unchanged_only_when_identical(request: SaveGuidance, head: GuidanceHead)
    ensures
        save_plan(request, Some(head)) == Some(GuidancePlan::Unchanged) ==> {
            &&& head.scope == request.scope
            &&& opt_view(head.document_id) == opt_view(request.document_id)
            &&& head.text@ == request.text@
            &&& head.active == request.active
            &&& opt_view(head.origin_message_id) == opt_view(request.origin_message_id)
        },
        (head.active != request.active || head.text@ != request.text@ || head.scope != request.scope
            || opt_view(head.document_id) != opt_view(request.document_id)
            || opt_view(head.origin_message_id) != opt_view(request.origin_message_id)) && head.version < u64::MAX
            ==> save_plan(request, Some(head)) == Some(GuidancePlan::Append { version: (head.version + 1) as u64, create_head: false }),
{
}

} // verus!
