//! The discussion-run lifecycle: which output, stop, failure and settlement
//! requests a run accepts, and the exact run state, output event and
//! assistant message each accepted request commits.
use vstd::prelude::*;
use crate::error::{CoreError, ErrorCode};
use crate::text::{byte_len, byte_length, check_id, valid_id};
use crate::vocab::{
    clone_opt_allowance, str_eq, AssistantMessage, DiscussionRun, DiscussionRunStatus, EventKind, OutputEvent,
    ProjectInfo, RunChange, RunOwner,
};

verus! {

broadcast use vstd::string::group_string_axioms;

pub const MAX_INSTRUCTION_BYTES: usize = 65536;
pub const MAX_SCOPE_QUOTE_BYTES: usize = 262144;
pub const MAX_OUTPUT_BYTES: usize = 2097152;
pub const MAX_EVENT_BYTES: usize = 131072;
pub const MAX_PINNED_DOCUMENTS: usize = 64;
pub const MAX_ERROR_BYTES: usize = 4096;
/// The largest counter a SQLite integer column holds.
pub const MAX_COUNTER: u64 = 9223372036854775807;

pub fn stop_settled_message() -> (r: &'static str)
    ensures
        r@ == stop_settled_text(),
{
    "You stopped this response. Any partial text shown here is saved."
}

pub fn stop_unresolved_message() -> (r: &'static str)
    ensures
        r@ == stop_unresolved_text(),
{
    "This response was interrupted. Any partial text shown here is saved."
}

pub open spec fn stop_settled_text() -> Seq<char> {
    "You stopped this response. Any partial text shown here is saved."@
}

pub open spec fn stop_unresolved_text() -> Seq<char> {
    "This response was interrupted. Any partial text shown here is saved."@
}

/// The assistant message retained when a run ends without a completed
/// answer: the partial output (if any) followed by the bracketed reason.
pub open spec fn terminal_content(output: Seq<char>, message: Seq<char>) -> Seq<char> {
    if output.len() == 0 {
        message
    } else {
        output + "\n\n["@ + message + "]"@
    }
}

pub fn terminal_content_text(output: &str, message: &str) -> (r: String)
    ensures
        r@ == terminal_content(output@, message@),
{
    if output.is_empty() {
        message.to_owned()
    } else {
        let mut content = output.to_owned();
        content.append("\n\n[");
        content.append(message);
        content.append("]");
        content
    }
}

// ------------------------------------------------------------------- owners

pub open spec fn owner_ids_valid(owner: RunOwner) -> bool {
    valid_id(owner.project_id@) && valid_id(owner.operation_namespace@) && valid_id(owner.run_id@)
}

pub fn check_owner_ids(owner: &RunOwner) -> (r: Result<(), CoreError>)
    ensures
        r is Ok <==> owner_ids_valid(*owner),
        r matches Err(e) ==> e.code == ErrorCode::InvalidRequest,
{
    if let Err(e) = check_id(owner.project_id.as_str()) {
        return Err(e);
    }
    if let Err(e) = check_id(owner.operation_namespace.as_str()) {
        return Err(e);
    }
    if let Err(e) = check_id(owner.run_id.as_str()) {
        return Err(e);
    }
    Ok(())
}

pub open spec fn runtime_owner_ok(info: ProjectInfo, owner: RunOwner) -> bool {
    owner.project_id@ == info.project_id@ && owner.operation_namespace@ == info.operation_namespace@
}

/// The runtime message must speak for the project identity the actor serves.
pub fn validate_runtime_owner(info: &ProjectInfo, owner: &RunOwner) -> (r: Result<(), CoreError>)
    ensures
        r is Ok <==> runtime_owner_ok(*info, *owner),
        r matches Err(e) ==> e.code == ErrorCode::DiscussionProjectMismatch,
{
    if !str_eq(owner.project_id.as_str(), info.project_id.as_str()) || !str_eq(
        owner.operation_namespace.as_str(),
        info.operation_namespace.as_str(),
    ) {
        return Err(CoreError::new(ErrorCode::DiscussionProjectMismatch, "The discussion run belongs to another project or recovered project identity."));
    }
    Ok(())
}

/// The runtime message must name the run's own owner exactly.
pub fn validate_owner(run: &DiscussionRun, owner: &RunOwner) -> (r: Result<(), CoreError>)
    ensures
        r is Ok <==> run.owner.same(*owner),
        r matches Err(e) ==> e.code == ErrorCode::DiscussionProjectMismatch,
{
    if !str_eq(run.owner.project_id.as_str(), owner.project_id.as_str()) || !str_eq(
        run.owner.operation_namespace.as_str(),
        owner.operation_namespace.as_str(),
    ) || !str_eq(run.owner.run_id.as_str(), owner.run_id.as_str()) {
        return Err(CoreError::new(ErrorCode::DiscussionProjectMismatch, "The output owner does not match the persisted run."));
    }
    Ok(())
}

/// A lookup discussion must use its lookup invocation protocol.
pub fn reject_legacy_lookup_path(run: &DiscussionRun) -> (r: Result<(), CoreError>)
    ensures
        r is Ok <==> run.lookup is None,
        r matches Err(e) ==> e.code == ErrorCode::LookupInvocationRequired,
{
    if run.lookup.is_some() {
        return Err(CoreError::new(ErrorCode::LookupInvocationRequired, "This discussion opted into bounded lookup and must use its lookup invocation protocol."));
    }
    Ok(())
}

pub open spec fn started_error(status: DiscussionRunStatus) -> Option<ErrorCode> {
    match status {
        DiscussionRunStatus::Running => None,
        DiscussionRunStatus::Queued => Some(ErrorCode::RunNotStarted),
        DiscussionRunStatus::Stopping => Some(ErrorCode::RunStopping),
        _ => Some(ErrorCode::RunSealed),
    }
}

/// Output is accepted only while a run is running.
pub fn ensure_run_started(status: DiscussionRunStatus) -> (r: Result<(), CoreError>)
    ensures
        match started_error(status) {
            None => r is Ok,
            Some(code) => r matches Err(e) && e.code == code,
        },
{
    match status {
        DiscussionRunStatus::Running => Ok(()),
        DiscussionRunStatus::Queued => Err(CoreError::new(ErrorCode::RunNotStarted, "Claim the queued discussion before accepting provider output.")),
        DiscussionRunStatus::Stopping => Err(CoreError::new(ErrorCode::RunStopping, "The discussion is stopping and no further output is accepted.")),
        _ => Err(CoreError::new(ErrorCode::RunSealed, "This discussion run is already sealed.")),
    }
}

// ------------------------------------------------------------ request shapes

pub open spec fn output_event_ok(owner: RunOwner, event_id: Seq<char>, text: Seq<char>) -> bool {
    &&& owner_ids_valid(owner)
    &&& valid_id(event_id)
    &&& text.len() > 0
    &&& byte_len(text) <= MAX_EVENT_BYTES
}

/// A streamed chunk is nonempty and at most 128 KiB.
pub fn validate_output_event(owner: &RunOwner, event_id: &str, text: &str) -> (r: Result<(), CoreError>)
    ensures
        r is Ok <==> output_event_ok(*owner, event_id@, text@),
        r matches Err(e) ==> e.code == ErrorCode::InvalidRequest,
{
    if let Err(e) = check_owner_ids(owner) {
        return Err(e);
    }
    if let Err(e) = check_id(event_id) {
        return Err(e);
    }
    if text.is_empty() || byte_length(text) > MAX_EVENT_BYTES {
        return Err(CoreError::new(ErrorCode::InvalidRequest, "A discussion output event must be nonempty and at most 128 KiB."));
    }
    Ok(())
}

pub open spec fn finish_shape_error(owner: RunOwner, event_id: Seq<char>, text: Seq<char>) -> Option<ErrorCode> {
    if !owner_ids_valid(owner) || !valid_id(event_id) || text.len() == 0 {
        Some(ErrorCode::InvalidRequest)
    } else if byte_len(text) > MAX_OUTPUT_BYTES {
        Some(ErrorCode::OutputTooLarge)
    } else {
        None
    }
}

/// A completed answer is nonempty and within the durable output limit.
pub fn validate_finish_request(owner: &RunOwner, event_id: &str, text: &str) -> (r: Result<(), CoreError>)
    ensures
        match finish_shape_error(*owner, event_id@, text@) {
            None => r is Ok,
            Some(code) => r matches Err(e) && e.code == code,
        },
{
    if let Err(e) = check_owner_ids(owner) {
        return Err(e);
    }
    if let Err(e) = check_id(event_id) {
        return Err(e);
    }
    if text.is_empty() {
        return Err(CoreError::new(ErrorCode::InvalidRequest, "A completed discussion must include assistant output."));
    }
    if byte_length(text) > MAX_OUTPUT_BYTES {
        return Err(CoreError::new(ErrorCode::OutputTooLarge, "The discussion output exceeds the durable limit."));
    }
    Ok(())
}

/// `a` is a prefix of `b`.
pub fn starts_with(b: &str, a: &str) -> (r: bool)
    ensures
        r == a@.is_prefix_of(b@),
{
    let ghost bs = b@;
    let ghost as_ = a@;
    let mut rest = b.chars();
    assert(vstd::std_specs::iter::IteratorSpec::remaining(&rest) == bs);
    for c in it: a.chars()
        invariant
            it.seq() == as_,
            it.index() <= bs.len(),
            vstd::std_specs::iter::IteratorSpec::remaining(&rest) == bs.skip(it.index() as int),
            forall|j: int| 0 <= j < it.index() ==> as_[j] == bs[j],
            as_ == a@,
            bs == b@,
    {
        let ghost k = it.index();
        match rest.next() {
            Some(d) => {
                assert(d == bs[k as int]);
                assert(c == as_[k as int]);
                assert(bs.skip(k as int).drop_first() =~= bs.skip(k + 1));
                if d != c {
                    assert(!as_.is_prefix_of(bs));
                    return false;
                }
            },
            None => {
                assert(bs.skip(k as int).len() == 0);
                assert(k < as_.len());
                return false;
            },
        }
    }
    assert(as_.len() <= bs.len());
    assert(as_ =~= bs.subrange(0, as_.len() as int));
    true
}

pub open spec fn final_output_error(current: Seq<char>, final_text: Seq<char>, allow_empty: bool) -> Option<ErrorCode> {
    if !allow_empty && final_text.len() == 0 {
        Some(ErrorCode::InvalidRequest)
    } else if byte_len(final_text) > MAX_OUTPUT_BYTES {
        Some(ErrorCode::OutputTooLarge)
    } else if !current.is_prefix_of(final_text) {
        Some(ErrorCode::OutputConflict)
    } else {
        None
    }
}

/// A terminal result may extend, but never replace, the persisted output.
pub fn validate_final_output(current: &str, final_text: &str, allow_empty: bool) -> (r: Result<(), CoreError>)
    ensures
        match final_output_error(current@, final_text@, allow_empty) {
            None => r is Ok,
            Some(code) => r matches Err(e) && e.code == code,
        },
{
    if !allow_empty && final_text.is_empty() {
        return Err(CoreError::new(ErrorCode::InvalidRequest, "A completed discussion must include assistant output."));
    }
    if byte_length(final_text) > MAX_OUTPUT_BYTES {
        return Err(CoreError::new(ErrorCode::OutputTooLarge, "The discussion output exceeds the durable limit."));
    }
    if !starts_with(final_text, current) {
        return Err(CoreError::new(ErrorCode::OutputConflict, "A terminal discussion result cannot replace persisted output."));
    }
    Ok(())
}

/// Appends a chunk to the accepted output when the total stays within `limit` bytes.
pub fn append_text(existing: &str, chunk: &str, limit: usize) -> (r: Result<String, CoreError>)
    ensures
        r is Ok <==> byte_len(existing@) + byte_len(chunk@) <= limit,
        r matches Ok(s) ==> s@ == existing@ + chunk@,
        r matches Err(e) ==> e.code == ErrorCode::OutputTooLarge,
{
    let a = byte_length(existing);
    let b = byte_length(chunk);
    if a > limit || b > limit - a {
        return Err(CoreError::new(ErrorCode::OutputTooLarge, "The discussion output exceeds the durable limit."));
    }
    let mut result = existing.to_owned();
    result.append(chunk);
    Ok(result)
}

// ------------------------------------------------------------------- sealing

pub open spec fn seal_error(current: DiscussionRun, status: DiscussionRunStatus, reason: Seq<char>, event_id: Seq<char>, message: Seq<char>) -> Option<ErrorCode> {
    if !current.status.spec_active() || !status.spec_terminal() {
        Some(ErrorCode::RunSealed)
    } else if !valid_id(event_id) {
        Some(ErrorCode::InvalidRequest)
    } else if reason.len() == 0 || message.len() == 0 || byte_len(message) > MAX_EVENT_BYTES {
        Some(ErrorCode::InvalidRequest)
    } else if current.sequence >= MAX_COUNTER {
        Some(ErrorCode::InvalidRequest)
    } else {
        None
    }
}

/// The run, event and message that sealing `current` commits.
pub open spec fn sealed(change: RunChange, current: DiscussionRun, status: DiscussionRunStatus, reason: Seq<char>, event_id: Seq<char>, message: Seq<char>) -> bool {
    &&& change.run.id == current.id
    &&& change.run.thread_id == current.thread_id
    &&& change.run.owner == current.owner
    &&& change.run.packet_id == current.packet_id
    &&& change.run.provider_binding == current.provider_binding
    &&& change.run.lookup == current.lookup
    &&& change.run.dispatch_state == current.dispatch_state
    &&& change.run.output_text == current.output_text
    &&& change.run.status == status
    &&& change.run.sequence == current.sequence + 1
    &&& change.run.stop_reason matches Some(s) && s@ == reason
    &&& change.event matches Some(ev) && ev.sequence == current.sequence + 1 && ev.event_id@
        == event_id && ev.kind == EventKind::Terminal && ev.chunk@ == message
    &&& change.message matches Some(m) && m.content@ == terminal_content(current.output_text@, message)
        && m.packet_id == Some(current.packet_id)
}

/// Moves an active run to a terminal status with one terminal event and one
/// assistant message, retaining every output chunk already accepted.
pub fn seal_run(
    current: &DiscussionRun,
    status: DiscussionRunStatus,
    reason: &str,
    event_id: &str,
    message: &str,
) -> (r: Result<RunChange, CoreError>)
    ensures
        match seal_error(*current, status, reason@, event_id@, message@) {
            None => r matches Ok(change) && sealed(change, *current, status, reason@, event_id@, message@),
            Some(code) => r matches Err(e) && e.code == code,
        },
{
    if !current.status.active() || !status.terminal() {
        return Err(CoreError::new(ErrorCode::RunSealed, "This discussion run is already sealed."));
    }
    if let Err(e) = check_id(event_id) {
        return Err(e);
    }
    if reason.is_empty() || message.is_empty() || byte_length(message) > MAX_EVENT_BYTES {
        return Err(CoreError::new(ErrorCode::InvalidRequest, "A terminal discussion event must include a bounded reason and message."));
    }
    if current.sequence >= MAX_COUNTER {
        return Err(CoreError::new(ErrorCode::InvalidRequest, "The output sequence is exhausted."));
    }
    let next = current.sequence + 1;
    let content = terminal_content_text(current.output_text.as_str(), message);
    let run = DiscussionRun {
        id: current.id.clone(),
        thread_id: current.thread_id.clone(),
        owner: current.owner.clone(),
        packet_id: current.packet_id.clone(),
        provider_binding: current.provider_binding.clone(),
        lookup: clone_opt_allowance(&current.lookup),
        status,
        dispatch_state: current.dispatch_state,
        sequence: next,
        output_text: current.output_text.clone(),
        stop_reason: Some(reason.to_owned()),
    };
    Ok(RunChange {
        run,
        event: Some(OutputEvent { sequence: next, event_id: event_id.to_owned(), kind: EventKind::Terminal, chunk: message.to_owned() }),
        message: Some(AssistantMessage { content, packet_id: Some(current.packet_id.clone()) }),
    })
}

} // verus!
