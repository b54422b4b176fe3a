//! Retrying an unfinished discussion: which earlier run may be retried, how
//! its original request is recovered, and the rule that a retry repeats that
//! request exactly.
use vstd::prelude::*;
use crate::error::{CoreError, ErrorCode, fails_with};
use crate::request::{BasisKind, DiscussionScopeInput, FeedbackIntent, ProjectBriefOrigin, SafeBriefInput, StartDiscussion};
use crate::pins::FrozenSource;
use crate::vocab::{opt_str_eq, opt_view, str_eq, DiscussionRunStatus, Head, LookupAllowance, ProjectAccess};

verus! {

broadcast use vstd::string::group_string_axioms;

// ------------------------------------------------------------ previous run

/// The stored row of a run a request names as its previous attempt.
#[derive(Debug)]
pub struct PreviousRunRow {
    pub project_id: String,
    pub operation_namespace: String,
    pub target_document_id: String,
    pub status: DiscussionRunStatus,
}

pub open spec fn previous_run_error(access: ProjectAccess, document_id: Seq<char>, row: Option<PreviousRunRow>) -> Option<ErrorCode> {
    match row {
        None => Some(ErrorCode::PreviousRunNotFound),
        Some(p) => if p.project_id@ != access.project_id@ || p.operation_namespace@ != access.operation_namespace@
            || p.target_document_id@ != document_id {
            Some(ErrorCode::PreviousRunMismatch)
        } else if !p.status.spec_terminal() {
            Some(ErrorCode::PreviousRunActive)
        } else {
            None
        },
    }
}

/// A previous run used as context belongs to the same project and target
/// document and is already terminal. `row` is the read of that run, if it
/// exists.
pub fn validate_previous_run(access: &ProjectAccess, document_id: &str, row: &Option<PreviousRunRow>) -> (r: Result<(), CoreError>)
    ensures
        match previous_run_error(*access, document_id@, *row) {
            Some(code) => fails_with(r, code),
            None => r is Ok,
        },
{
    let p = match row {
        None => return Err(CoreError::new(ErrorCode::PreviousRunNotFound, "The previous discussion run is not available.")),
        Some(p) => p,
    };
    if !str_eq(p.project_id.as_str(), access.project_id.as_str())
        || !str_eq(p.operation_namespace.as_str(), access.operation_namespace.as_str())
        || !str_eq(p.target_document_id.as_str(), document_id) {
        return Err(CoreError::new(ErrorCode::PreviousRunMismatch, "A previous discussion must belong to the same project and target document."));
    }
    if !p.status.terminal() {
        return Err(CoreError::new(ErrorCode::PreviousRunActive, "The previous discussion must be terminal before it can be used as context."));
    }
    Ok(())
}

/// A completed discussion is not retried; follow-up feedback is a new request.
pub fn check_retryable(status: DiscussionRunStatus) -> (r: Result<(), CoreError>)
    ensures
        r is Ok <==> status != DiscussionRunStatus::Completed,
        r matches Err(e) ==> e.code == ErrorCode::RetryAlreadyCompleted,
{
    if status == DiscussionRunStatus::Completed {
        return Err(CoreError::new(ErrorCode::RetryAlreadyCompleted, "This discussion already completed. Send follow-up feedback as a new request."));
    }
    Ok(())
}

// ------------------------------------------------------------------ retry

/// The original request of a retried run, recovered from its records.
#[derive(Debug)]
pub struct DiscussionRetry {
    pub text: String,
    pub intent: FeedbackIntent,
    pub basis: Option<BasisKind>,
    pub scope: Option<DiscussionScopeInput>,
    pub pinned_document_ids: Vec<String>,
    pub safe_brief: Option<SafeBriefInput>,
    pub previous_run_id: String,
    pub lookup: Option<LookupAllowance>,
}

pub open spec fn same_scope(a: Option<DiscussionScopeInput>, b: Option<DiscussionScopeInput>) -> bool {
    match (a, b) {
        (Some(x), Some(y)) => x.kind == y.kind && x.start@ == y.start@ && x.end@ == y.end@ && x.quote@ == y.quote@
            && x.source_body_hash@ == y.source_body_hash@,
        (None, None) => true,
        _ => false,
    }
}

pub open spec fn same_head(a: Head, b: Head) -> bool {
    a.document_id@ == b.document_id@ && a.version@ == b.version@ && a.body_hash@ == b.body_hash@
}

pub open spec fn same_origin(a: Option<ProjectBriefOrigin>, b: Option<ProjectBriefOrigin>) -> bool {
    match (a, b) {
        (Some(x), Some(y)) => x.version@ == y.version@ && x.project_id@ == y.project_id@
            && x.operation_namespace@ == y.operation_namespace@ && x.conversation_id@ == y.conversation_id@
            && x.message_id@ == y.message_id@ && x.scope_hash@ == y.scope_hash@ && x.text_hash@ == y.text_hash@
            && same_head(x.target, y.target),
        (None, None) => true,
        _ => false,
    }
}

pub open spec fn same_brief(a: Option<SafeBriefInput>, b: Option<SafeBriefInput>) -> bool {
    match (a, b) {
        (Some(x), Some(y)) => x.text@ == y.text@ && x.confirmed == y.confirmed
            && opt_view(x.origin_message_id) == opt_view(y.origin_message_id) && same_origin(x.project_origin, y.project_origin),
        (None, None) => true,
        _ => false,
    }
}

pub open spec fn same_allowance(a: Option<LookupAllowance>, b: Option<LookupAllowance>) -> bool {
    match (a, b) {
        (Some(x), Some(y)) => x.max_additional_invocations == y.max_additional_invocations
            && x.total_input_bytes@ == y.total_input_bytes@ && x.total_output_bytes@ == y.total_output_bytes@,
        (None, None) => true,
        _ => false,
    }
}

pub open spec fn same_ids(a: Seq<String>, b: Seq<String>) -> bool {
    a.len() == b.len() && forall|i: int| 0 <= i < a.len() ==> (#[trigger] a[i])@ == b[i]@
}

/// A retry repeats its original request exactly: the same basis, intent,
/// feedback text, selection, included sources, brief and lookup opt-in.
pub open spec fn retry_matches(request: StartDiscussion, original: DiscussionRetry) -> bool {
    &&& request.basis == original.basis
    &&& request.intent == original.intent
    &&& request.instruction@ == original.text@
    &&& same_scope(request.scope, original.scope)
    &&& same_ids(request.pinned_document_ids@, original.pinned_document_ids@)
    &&& same_brief(request.safe_brief, original.safe_brief)
    &&& same_allowance(request.lookup, original.lookup)
}

fn same_scope_exec(a: &Option<DiscussionScopeInput>, b: &Option<DiscussionScopeInput>) -> (r: bool)
    ensures
        r == same_scope(*a, *b),
{
    match (a, b) {
        (Some(x), Some(y)) => x.kind == y.kind && str_eq(x.start.as_str(), y.start.as_str()) && str_eq(x.end.as_str(), y.end.as_str())
            && str_eq(x.quote.as_str(), y.quote.as_str()) && str_eq(x.source_body_hash.as_str(), y.source_body_hash.as_str()),
        (None, None) => true,
        _ => false,
    }
}

fn same_head_exec(a: &Head, b: &Head) -> (r: bool)
    ensures
        r == same_head(*a, *b),
{
    str_eq(a.document_id.as_str(), b.document_id.as_str()) && str_eq(a.version.as_str(), b.version.as_str())
        && str_eq(a.body_hash.as_str(), b.body_hash.as_str())
}

fn same_origin_exec(a: &Option<ProjectBriefOrigin>, b: &Option<ProjectBriefOrigin>) -> (r: bool)
    ensures
        r == same_origin(*a, *b),
{
    match (a, b) {
        (Some(x), Some(y)) => str_eq(x.version.as_str(), y.version.as_str()) && str_eq(x.project_id.as_str(), y.project_id.as_str())
            && str_eq(x.operation_namespace.as_str(), y.operation_namespace.as_str())
            && str_eq(x.conversation_id.as_str(), y.conversation_id.as_str())
            && str_eq(x.message_id.as_str(), y.message_id.as_str()) && str_eq(x.scope_hash.as_str(), y.scope_hash.as_str())
            && str_eq(x.text_hash.as_str(), y.text_hash.as_str()) && same_head_exec(&x.target, &y.target),
        (None, None) => true,
        _ => false,
    }
}

fn same_brief_exec(a: &Option<SafeBriefInput>, b: &Option<SafeBriefInput>) -> (r: bool)
    ensures
        r == same_brief(*a, *b),
{
    match (a, b) {
        (Some(x), Some(y)) => str_eq(x.text.as_str(), y.text.as_str()) && x.confirmed == y.confirmed
            && opt_str_eq(&x.origin_message_id, &y.origin_message_id) && same_origin_exec(&x.project_origin, &y.project_origin),
        (None, None) => true,
        _ => false,
    }
}

fn same_allowance_exec(a: &Option<LookupAllowance>, b: &Option<LookupAllowance>) -> (r: bool)
    ensures
        r == same_allowance(*a, *b),
{
    match (a, b) {
        (Some(x), Some(y)) => x.max_additional_invocations == y.max_additional_invocations
            && str_eq(x.total_input_bytes.as_str(), y.total_input_bytes.as_str())
            && str_eq(x.total_output_bytes.as_str(), y.total_output_bytes.as_str()),
        (None, None) => true,
        _ => false,
    }
}

fn same_ids_exec(a: &Vec<String>, b: &Vec<String>) -> (r: bool)
    ensures
        r == same_ids(a@, b@),
{
    if a.len() != b.len() {
        return false;
    }
    let n = a.len();
    let mut i: usize = 0;
    while i < n
        invariant
            n == a@.len(),
            n == b@.len(),
            0 <= i <= n,
            forall|j: int| 0 <= j < i ==> (#[trigger] a@[j])@ == b@[j]@,
        decreases n - i,
    {
        if !str_eq(a[i].as_str(), b[i].as_str()) {
            return false;
        }
        i += 1;
    }
    true
}

/// A retry must repeat its original request; anything changed is a new
/// request.
pub fn check_retry_request(request: &StartDiscussion, original: &DiscussionRetry) -> (r: Result<(), CoreError>)
    ensures
        r is Ok <==> retry_matches(*request, *original),
        r matches Err(e) ==> e.code == ErrorCode::RetryRequestChanged,
{
    if request.basis != original.basis || request.intent != original.intent
        || !str_eq(request.instruction.as_str(), original.text.as_str())
        || !same_scope_exec(&request.scope, &original.scope)
        || !same_ids_exec(&request.pinned_document_ids, &original.pinned_document_ids)
        || !same_brief_exec(&request.safe_brief, &original.safe_brief)
        || !same_allowance_exec(&request.lookup, &original.lookup) {
        return Err(CoreError::new(ErrorCode::RetryRequestChanged, "The feedback, selection, or included sources changed. Send this as a new request."));
    }
    Ok(())
}


/// The document the first frozen source with this handle reads.
pub open spec fn source_document(sources: Seq<FrozenSource>, handle: Seq<char>) -> Option<Seq<char>>
    decreases sources.len(),
{
    if sources.len() == 0 {
        None
    } else if sources[0].handle@ == handle {
        Some(sources[0].document_id@)
    } else {
        source_document(sources.drop_first(), handle)
    }
}

fn find_source_document(sources: &Vec<FrozenSource>, handle: &str) -> (r: Option<String>)
    ensures
        match r { Some(d) => Some(d@), None => None::<Seq<char>> } == source_document(sources@, handle@),
{
    let n = sources.len();
    let mut k: usize = 0;
    assert(sources@.skip(0) =~= sources@);
    while k < n
        invariant
            n == sources@.len(),
            0 <= k <= n,
            source_document(sources@, handle@) == source_document(sources@.skip(k as int), handle@),
        decreases n - k,
    {
        assert(sources@.skip(k as int)[0] == sources@[k as int]);
        assert(sources@.skip(k as int).drop_first() =~= sources@.skip(k + 1));
        if str_eq(sources[k].handle.as_str(), handle) {
            return Some(sources[k].document_id.clone());
        }
        k += 1;
    }
    None
}

/// Recovers the documents a retried request included from the handles its
/// packet retained (the request's own pins when it recorded them, else all
/// mandatory handles). Every handle must still be frozen.
pub fn retry_pins(sources: &Vec<FrozenSource>, handles: &Vec<String>) -> (r: Result<Vec<String>, CoreError>)
    ensures
        (forall|i: int| 0 <= i < handles@.len() ==> source_document(sources@, (#[trigger] handles@[i])@) is Some) <==> r is Ok,
        r matches Ok(v) ==> v@.len() == handles@.len() && forall|i: int| 0 <= i < handles@.len()
            ==> Some((#[trigger] v@[i])@) == source_document(sources@, handles@[i]@),
        r matches Err(e) ==> e.code == ErrorCode::InvalidContext,
{
    let mut out: Vec<String> = Vec::new();
    let n = handles.len();
    let mut i: usize = 0;
    while i < n
        invariant
            n == handles@.len(),
            0 <= i <= n,
            out@.len() == i,
            forall|j: int| 0 <= j < i ==> Some((#[trigger] out@[j])@) == source_document(sources@, handles@[j]@),
        decreases n - i,
    {
        match find_source_document(sources, handles[i].as_str()) {
            Some(d) => out.push(d),
            None => {
                assert(source_document(sources@, handles@[i as int]@) is None);
                return Err(CoreError::new(ErrorCode::InvalidContext, "An original included source is missing."));
            },
        }
        i += 1;
    }
    assert forall|i: int| 0 <= i < handles@.len() implies source_document(sources@, (#[trigger] handles@[i])@) is Some by {
        assert(Some(out@[i]@) == source_document(sources@, handles@[i]@));
    }
    Ok(out)
}

} // verus!
