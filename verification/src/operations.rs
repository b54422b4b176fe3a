//! The actor-facing discussion commands, each as a decision over the run it
//! reads: what it refuses, what it replays, and what it commits.
//!
//! Each command takes the outcome of reading its run (`current`) and of
//! looking up its event ID (`existing`), validates the request in the same
//! order the commands always have, and returns the writes to commit.
use vstd::prelude::*;
use crate::error::{CoreError, ErrorCode, fails_with};
use crate::lifecycle::{append_text, ensure_run_started, final_output_error, finish_shape_error, output_event_ok, owner_ids_valid, reject_legacy_lookup_path, runtime_owner_ok, seal_error, seal_run, sealed, started_error, stop_settled_message, stop_settled_text, stop_unresolved_message, stop_unresolved_text, terminal_content, terminal_content_text, validate_final_output, validate_finish_request, validate_output_event, validate_owner, validate_runtime_owner, MAX_COUNTER, MAX_EVENT_BYTES, MAX_OUTPUT_BYTES};
use crate::text::{byte_len, check_id, concat, parse_version, trim, trim_text, valid_id, version_ok, version_value, byte_length};
use crate::vocab::{clone_opt_allowance, clone_opt_string, str_eq, AssistantMessage, DiscussionRun, DiscussionRunStatus, DispatchState, EventKind, ExistingEvent, OutputEvent, ProjectAccess, ProjectInfo, RunChange, RunOwner, RunStep, ChainStep, ProviderCleanup, ProviderOutcomeStatus};

verus! {

broadcast use vstd::string::group_string_axioms;

#[derive(Debug)]
pub struct DiscussionOutputAppend {
    pub owner: RunOwner,
    pub expected_sequence: String,
    pub event_id: String,
    pub chunk: String,
}

#[derive(Debug)]
pub struct DiscussionFinish {
    pub owner: RunOwner,
    pub expected_sequence: String,
    pub event_id: String,
    pub assistant_text: String,
}

#[derive(Debug)]
pub struct DiscussionFail {
    pub owner: RunOwner,
    pub expected_sequence: String,
    pub event_id: String,
    pub reason: String,
}

#[derive(Debug, Clone, Copy, PartialEq, Eq, Structural)]
pub enum DiscussionStopCleanup {
    Settled,
    Unresolved,
}

#[derive(Debug)]
pub struct DiscussionStopSettled {
    pub owner: RunOwner,
    pub expected_sequence: String,
    pub event_id: String,
    pub assistant_text: String,
    pub cleanup: DiscussionStopCleanup,
}

#[derive(Debug)]
pub struct DiscussionBegin {
    pub owner: RunOwner,
}

/// The run that a stop request leaves behind.
#[derive(Debug)]
pub struct DiscussionStop {
    pub run: DiscussionRun,
}

/// A replay matches when the recorded event has the same kind, content and
/// the sequence the request expected to produce.
pub open spec fn replay_matches(ev: ExistingEvent, kind: EventKind, text: Seq<char>, expected: nat) -> bool {
    &&& ev.kind == kind
    &&& ev.chunk@ == text
    &&& expected < MAX_COUNTER
    &&& ev.sequence == expected + 1
}

pub fn event_replays(ev: &ExistingEvent, kind: EventKind, text: &str, expected: u64) -> (r: bool)
    ensures
        r == replay_matches(*ev, kind, text@, expected as nat),
{
    ev.kind == kind && str_eq(ev.chunk.as_str(), text) && expected < MAX_COUNTER && ev.sequence
        == expected + 1
}

/// The run unchanged but for the fields a step sets.
pub open spec fn same_identity(a: DiscussionRun, b: DiscussionRun) -> bool {
    &&& a.id == b.id
    &&& a.thread_id == b.thread_id
    &&& a.owner == b.owner
    &&& a.packet_id == b.packet_id
    &&& a.provider_binding == b.provider_binding
    &&& a.lookup == b.lookup
}

pub(crate) fn with_progress(
    current: &DiscussionRun,
    status: DiscussionRunStatus,
    sequence: u64,
    output_text: String,
) -> (r: DiscussionRun)
    ensures
        same_identity(r, *current),
        r.status == status,
        r.sequence == sequence,
        r.output_text == output_text,
        r.dispatch_state == current.dispatch_state,
        r.stop_reason == current.stop_reason,
{
    DiscussionRun {
        id: current.id.clone(),
        thread_id: current.thread_id.clone(),
        owner: current.owner.clone(),
        packet_id: current.packet_id.clone(),
        provider_binding: crate::vocab::clone_opt_binding(&current.provider_binding),
        lookup: clone_opt_allowance(&current.lookup),
        status,
        dispatch_state: current.dispatch_state,
        sequence,
        output_text,
        stop_reason: clone_opt_string(&current.stop_reason),
    }
}

// ------------------------------------------------------------------- append

pub open spec fn append_request_error(info: ProjectInfo, request: DiscussionOutputAppend) -> Option<ErrorCode> {
    if !output_event_ok(request.owner, request.event_id@, request.chunk@) {
        Some(ErrorCode::InvalidRequest)
    } else if !runtime_owner_ok(info, request.owner) {
        Some(ErrorCode::DiscussionProjectMismatch)
    } else if !version_ok(request.expected_sequence@) {
        Some(ErrorCode::InvalidRequest)
    } else {
        None
    }
}

pub open spec fn append_run_error(request: DiscussionOutputAppend, run: DiscussionRun, existing: Option<ExistingEvent>) -> Option<ErrorCode> {
    let expected = version_value(request.expected_sequence@);
    if !run.owner.same(request.owner) {
        Some(ErrorCode::DiscussionProjectMismatch)
    } else if run.lookup is Some {
        Some(ErrorCode::LookupInvocationRequired)
    } else if existing is Some {
        if replay_matches(existing->0, EventKind::Chunk, request.chunk@, expected) {
            None
        } else {
            Some(ErrorCode::EventIdReused)
        }
    } else if started_error(run.status) is Some {
        started_error(run.status)
    } else if expected != run.sequence {
        Some(ErrorCode::SequenceConflict)
    } else if byte_len(run.output_text@) + byte_len(request.chunk@) > MAX_OUTPUT_BYTES {
        Some(ErrorCode::OutputTooLarge)
    } else if run.sequence >= MAX_COUNTER {
        Some(ErrorCode::InvalidRequest)
    } else {
        None
    }
}

/// The chunk joins the output and its event is recorded at the next sequence.
pub open spec fn appended(c: RunChange, run: DiscussionRun, request: DiscussionOutputAppend) -> bool {
    &&& same_identity(c.run, run)
    &&& c.run.status == DiscussionRunStatus::Running
    &&& c.run.dispatch_state == run.dispatch_state
    &&& c.run.stop_reason == run.stop_reason
    &&& c.run.sequence == run.sequence + 1
    &&& c.run.output_text@ == run.output_text@ + request.chunk@
    &&& c.event matches Some(ev) && ev.kind == EventKind::Chunk && ev.sequence == run.sequence + 1
        && ev.event_id@ == request.event_id@ && ev.chunk@ == request.chunk@
    &&& c.message is None
}

/// Accepts one streamed output chunk at the expected sequence. A repeated
/// event ID with the same chunk and sequence replays; any other reuse fails.
pub fn append_discussion_output(
    info: &ProjectInfo,
    request: &DiscussionOutputAppend,
    current: Result<DiscussionRun, CoreError>,
    existing: Option<ExistingEvent>,
) -> (r: Result<RunStep, CoreError>)
    ensures
        match append_request_error(*info, *request) {
            Some(code) => fails_with(r, code),
            None => match current {
                Err(e) => r == Err::<RunStep, CoreError>(e),
                Ok(run) => match append_run_error(*request, run, existing) {
                    Some(code) => fails_with(r, code),
                    None => if existing is Some {
                        r == Ok::<RunStep, CoreError>(RunStep::Replayed(run))
                    } else {
                        r matches Ok(RunStep::Changed(c)) && appended(c, run, *request)
                    },
                },
            },
        },
{
    if let Err(e) = validate_output_event(&request.owner, request.event_id.as_str(), request.chunk.as_str()) {
        return Err(e);
    }
    if let Err(e) = validate_runtime_owner(info, &request.owner) {
        return Err(e);
    }
    let expected = match parse_version(request.expected_sequence.as_str()) {
        Ok(v) => v,
        Err(e) => return Err(e),
    };
    let current = match current {
        Ok(run) => run,
        Err(e) => return Err(e),
    };
    if let Err(e) = validate_owner(&current, &request.owner) {
        return Err(e);
    }
    if let Err(e) = reject_legacy_lookup_path(&current) {
        return Err(e);
    }
    if let Some(ev) = &existing {
        if event_replays(ev, EventKind::Chunk, request.chunk.as_str(), expected) {
            return Ok(RunStep::Replayed(current));
        }
        return Err(CoreError::new(ErrorCode::EventIdReused, "An output event ID was reused with different content or sequence."));
    }
    if let Err(e) = ensure_run_started(current.status) {
        return Err(e);
    }
    if expected != current.sequence {
        return Err(CoreError::new(ErrorCode::SequenceConflict, "The output sequence is stale; reconcile the run before retrying."));
    }
    let next_output = match append_text(current.output_text.as_str(), request.chunk.as_str(), MAX_OUTPUT_BYTES) {
        Ok(text) => text,
        Err(e) => return Err(e),
    };
    if current.sequence >= MAX_COUNTER {
        return Err(CoreError::new(ErrorCode::InvalidRequest, "The output sequence is exhausted."));
    }
    let next = current.sequence + 1;
    let run = with_progress(&current, DiscussionRunStatus::Running, next, next_output);
    Ok(RunStep::Changed(RunChange {
        run,
        event: Some(OutputEvent { sequence: next, event_id: request.event_id.clone(), kind: EventKind::Chunk, chunk: request.chunk.clone() }),
        message: None,
    }))
}


// ------------------------------------------------------------------- finish

pub open spec fn finish_request_error(info: ProjectInfo, request: DiscussionFinish) -> Option<ErrorCode> {
    if finish_shape_error(request.owner, request.event_id@, request.assistant_text@) is Some {
        finish_shape_error(request.owner, request.event_id@, request.assistant_text@)
    } else if !runtime_owner_ok(info, request.owner) {
        Some(ErrorCode::DiscussionProjectMismatch)
    } else if !version_ok(request.expected_sequence@) {
        Some(ErrorCode::InvalidRequest)
    } else {
        None
    }
}

pub open spec fn finish_run_error(request: DiscussionFinish, run: DiscussionRun, existing: Option<ExistingEvent>) -> Option<ErrorCode> {
    let expected = version_value(request.expected_sequence@);
    if !run.owner.same(request.owner) {
        Some(ErrorCode::DiscussionProjectMismatch)
    } else if run.lookup is Some {
        Some(ErrorCode::LookupInvocationRequired)
    } else if run.provider_binding is Some {
        Some(ErrorCode::ProviderResultRequired)
    } else if existing is Some {
        if replay_matches(existing->0, EventKind::Terminal, request.assistant_text@, expected)
            && run.status == DiscussionRunStatus::Completed {
            None
        } else {
            Some(ErrorCode::EventIdReused)
        }
    } else if started_error(run.status) is Some {
        started_error(run.status)
    } else if final_output_error(run.output_text@, request.assistant_text@, false) is Some {
        final_output_error(run.output_text@, request.assistant_text@, false)
    } else if expected != run.sequence {
        Some(ErrorCode::SequenceConflict)
    } else if run.sequence >= MAX_COUNTER {
        Some(ErrorCode::InvalidRequest)
    } else {
        None
    }
}

/// The run completes with exactly the finished text, one terminal event and
/// one assistant message carrying the answer.
pub open spec fn finished(c: RunChange, run: DiscussionRun, request: DiscussionFinish) -> bool {
    &&& same_identity(c.run, run)
    &&& c.run.status == DiscussionRunStatus::Completed
    &&& c.run.dispatch_state == run.dispatch_state
    &&& c.run.stop_reason == run.stop_reason
    &&& c.run.sequence == run.sequence + 1
    &&& c.run.output_text@ == request.assistant_text@
    &&& c.event matches Some(ev) && ev.kind == EventKind::Terminal && ev.sequence == run.sequence + 1
        && ev.event_id@ == request.event_id@ && ev.chunk@ == request.assistant_text@
    &&& c.message matches Some(m) && m.content@ == request.assistant_text@ && m.packet_id is None
}

/// Completes a mock-driven run with its full answer. Live runs settle through
/// their typed provider result instead.
pub fn finish_discussion(
    info: &ProjectInfo,
    request: &DiscussionFinish,
    current: Result<DiscussionRun, CoreError>,
    existing: Option<ExistingEvent>,
) -> (r: Result<RunStep, CoreError>)
    ensures
        match finish_request_error(*info, *request) {
            Some(code) => fails_with(r, code),
            None => match current {
                Err(e) => r == Err::<RunStep, CoreError>(e),
                Ok(run) => match finish_run_error(*request, run, existing) {
                    Some(code) => fails_with(r, code),
                    None => if existing is Some {
                        r == Ok::<RunStep, CoreError>(RunStep::Replayed(run))
                    } else {
                        r matches Ok(RunStep::Changed(c)) && finished(c, run, *request)
                    },
                },
            },
        },
{
    if let Err(e) = validate_finish_request(&request.owner, request.event_id.as_str(), request.assistant_text.as_str()) {
        return Err(e);
    }
    if let Err(e) = validate_runtime_owner(info, &request.owner) {
        return Err(e);
    }
    let expected = match parse_version(request.expected_sequence.as_str()) {
        Ok(v) => v,
        Err(e) => return Err(e),
    };
    let current = match current {
        Ok(run) => run,
        Err(e) => return Err(e),
    };
    if let Err(e) = validate_owner(&current, &request.owner) {
        return Err(e);
    }
    if let Err(e) = reject_legacy_lookup_path(&current) {
        return Err(e);
    }
    if current.provider_binding.is_some() {
        return Err(CoreError::new(ErrorCode::ProviderResultRequired, "A live discussion can be completed only through its typed provider result."));
    }
    if let Some(ev) = &existing {
        if event_replays(ev, EventKind::Terminal, request.assistant_text.as_str(), expected)
            && current.status == DiscussionRunStatus::Completed {
            return Ok(RunStep::Replayed(current));
        }
        return Err(CoreError::new(ErrorCode::EventIdReused, "A terminal event ID was reused with a different outcome, content, or sequence."));
    }
    if let Err(e) = ensure_run_started(current.status) {
        return Err(e);
    }
    if let Err(e) = validate_final_output(current.output_text.as_str(), request.assistant_text.as_str(), false) {
        return Err(e);
    }
    if expected != current.sequence {
        return Err(CoreError::new(ErrorCode::SequenceConflict, "The output sequence is stale; reconcile the run before retrying."));
    }
    if current.sequence >= MAX_COUNTER {
        return Err(CoreError::new(ErrorCode::InvalidRequest, "The output sequence is exhausted."));
    }
    let next = current.sequence + 1;
    let run = with_progress(&current, DiscussionRunStatus::Completed, next, request.assistant_text.clone());
    Ok(RunStep::Changed(RunChange {
        run,
        event: Some(OutputEvent { sequence: next, event_id: request.event_id.clone(), kind: EventKind::Terminal, chunk: request.assistant_text.clone() }),
        message: Some(AssistantMessage { content: request.assistant_text.clone(), packet_id: None }),
    }))
}

// --------------------------------------------------------------------- fail

pub open spec fn failure_text(reason: Seq<char>) -> Seq<char> {
    "Discussion failed: "@ + trim(reason)
}

pub open spec fn fail_request_error(info: ProjectInfo, request: DiscussionFail) -> Option<ErrorCode> {
    let reason = trim(request.reason@);
    if !valid_id(request.owner.project_id@) || !valid_id(request.owner.operation_namespace@) {
        Some(ErrorCode::InvalidRequest)
    } else if !runtime_owner_ok(info, request.owner) {
        Some(ErrorCode::DiscussionProjectMismatch)
    } else if !valid_id(request.event_id@) || !valid_id(request.owner.run_id@) {
        Some(ErrorCode::InvalidRequest)
    } else if !version_ok(request.expected_sequence@) {
        Some(ErrorCode::InvalidRequest)
    } else if reason.len() == 0 || byte_len(reason) > MAX_EVENT_BYTES {
        Some(ErrorCode::InvalidRequest)
    } else if byte_len(failure_text(request.reason@)) > MAX_EVENT_BYTES {
        Some(ErrorCode::InvalidRequest)
    } else {
        None
    }
}

pub open spec fn fail_run_error(request: DiscussionFail, run: DiscussionRun, existing: Option<ExistingEvent>) -> Option<ErrorCode> {
    let expected = version_value(request.expected_sequence@);
    let text = failure_text(request.reason@);
    if !run.owner.same(request.owner) {
        Some(ErrorCode::DiscussionProjectMismatch)
    } else if run.lookup is Some {
        Some(ErrorCode::LookupInvocationRequired)
    } else if run.status == DiscussionRunStatus::Stopping {
        Some(ErrorCode::RunStopping)
    } else if existing is Some {
        if replay_matches(existing->0, EventKind::Terminal, text, expected)
            && run.status == DiscussionRunStatus::Failed {
            None
        } else {
            Some(ErrorCode::EventIdReused)
        }
    } else if expected != run.sequence {
        Some(ErrorCode::SequenceConflict)
    } else {
        seal_error(run, DiscussionRunStatus::Failed, trim(request.reason@), request.event_id@, text)
    }
}

/// Seals a run as failed, keeping every chunk already accepted; the trimmed
/// reason is the stop reason and "Discussion failed: {reason}" the terminal text.
pub fn fail_discussion_run(
    info: &ProjectInfo,
    request: &DiscussionFail,
    current: Result<DiscussionRun, CoreError>,
    existing: Option<ExistingEvent>,
) -> (r: Result<RunStep, CoreError>)
    ensures
        match fail_request_error(*info, *request) {
            Some(code) => fails_with(r, code),
            None => match current {
                Err(e) => r == Err::<RunStep, CoreError>(e),
                Ok(run) => match fail_run_error(*request, run, existing) {
                    Some(code) => fails_with(r, code),
                    None => if existing is Some {
                        r == Ok::<RunStep, CoreError>(RunStep::Replayed(run))
                    } else {
                        r matches Ok(RunStep::Changed(c)) && sealed(c, run, DiscussionRunStatus::Failed,
                            trim(request.reason@), request.event_id@, failure_text(request.reason@))
                    },
                },
            },
        },
{
    if let Err(e) = check_id(request.owner.project_id.as_str()) {
        return Err(e);
    }
    if let Err(e) = check_id(request.owner.operation_namespace.as_str()) {
        return Err(e);
    }
    if let Err(e) = validate_runtime_owner(info, &request.owner) {
        return Err(e);
    }
    if let Err(e) = check_id(request.event_id.as_str()) {
        return Err(e);
    }
    if let Err(e) = check_id(request.owner.run_id.as_str()) {
        return Err(e);
    }
    let expected = match parse_version(request.expected_sequence.as_str()) {
        Ok(v) => v,
        Err(e) => return Err(e),
    };
    let reason = trim_text(request.reason.as_str());
    if reason.as_str().is_empty() || byte_length(reason.as_str()) > MAX_EVENT_BYTES {
        return Err(CoreError::new(ErrorCode::InvalidRequest, "A discussion failure reason must be nonempty and at most 128 KiB."));
    }
    let terminal_text = concat("Discussion failed: ", reason.as_str());
    if byte_length(terminal_text.as_str()) > MAX_EVENT_BYTES {
        return Err(CoreError::new(ErrorCode::InvalidRequest, "The discussion failure message exceeds the durable event limit."));
    }
    let current = match current {
        Ok(run) => run,
        Err(e) => return Err(e),
    };
    if let Err(e) = validate_owner(&current, &request.owner) {
        return Err(e);
    }
    if let Err(e) = reject_legacy_lookup_path(&current) {
        return Err(e);
    }
    if current.status == DiscussionRunStatus::Stopping {
        return Err(CoreError::new(ErrorCode::RunStopping, "The discussion is stopping and cannot be failed before cleanup settles."));
    }
    if let Some(ev) = &existing {
        if event_replays(ev, EventKind::Terminal, terminal_text.as_str(), expected)
            && current.status == DiscussionRunStatus::Failed {
            return Ok(RunStep::Replayed(current));
        }
        return Err(CoreError::new(ErrorCode::EventIdReused, "A terminal event ID was reused with a different outcome, content, or sequence."));
    }
    if expected != current.sequence {
        return Err(CoreError::new(ErrorCode::SequenceConflict, "The output sequence changed before failure was recorded."));
    }
    match seal_run(&current, DiscussionRunStatus::Failed, reason.as_str(), request.event_id.as_str(), terminal_text.as_str()) {
        Ok(change) => Ok(RunStep::Changed(change)),
        Err(e) => Err(e),
    }
}

// --------------------------------------------------------------------- stop

pub open spec fn stop_event_id(run_id: Seq<char>) -> Seq<char> {
    "system-stop-"@ + run_id
}

pub open spec fn same_session(access: ProjectAccess, run: DiscussionRun) -> bool {
    run.owner.project_id@ == access.project_id@ && run.owner.operation_namespace@ == access.operation_namespace@
}

/// An author stop: a queued run is sealed as stopped at once, a running run
/// moves to stopping until its worker settles, and any other run is returned
/// unchanged. The caller has already checked `access` against the session.
pub fn stop_discussion(
    access: &ProjectAccess,
    run_id: &str,
    current: Result<DiscussionRun, CoreError>,
) -> (r: Result<RunStep, CoreError>)
    ensures
        !valid_id(run_id@) ==> fails_with(r, ErrorCode::InvalidRequest),
        valid_id(run_id@) ==> match current {
            Err(e) => r == Err::<RunStep, CoreError>(e),
            Ok(run) => if !same_session(*access, run) {
                fails_with(r, ErrorCode::DiscussionProjectMismatch)
            } else {
                match run.status {
                    DiscussionRunStatus::Queued => match seal_error(run, DiscussionRunStatus::Stopped,
                        "author_stopped"@, stop_event_id(run.id@), stop_settled_text()) {
                        Some(code) => fails_with(r, code),
                        None => r matches Ok(RunStep::Changed(c)) && sealed(c, run,
                            DiscussionRunStatus::Stopped, "author_stopped"@, stop_event_id(run.id@),
                            stop_settled_text()),
                    },
                    DiscussionRunStatus::Running => r matches Ok(RunStep::Changed(c))
                        && stopping(c, run),
                    _ => r == Ok::<RunStep, CoreError>(RunStep::Replayed(run)),
                }
            },
        },
{
    if let Err(e) = check_id(run_id) {
        return Err(e);
    }
    let current = match current {
        Ok(run) => run,
        Err(e) => return Err(e),
    };
    if !str_eq(current.owner.project_id.as_str(), access.project_id.as_str()) || !str_eq(
        current.owner.operation_namespace.as_str(),
        access.operation_namespace.as_str(),
    ) {
        return Err(CoreError::new(ErrorCode::DiscussionProjectMismatch, "This run belongs to another project session."));
    }
    match current.status {
        DiscussionRunStatus::Queued => {
            let event_id = concat("system-stop-", current.id.as_str());
            match seal_run(&current, DiscussionRunStatus::Stopped, "author_stopped", event_id.as_str(), stop_settled_message()) {
                Ok(change) => Ok(RunStep::Changed(change)),
                Err(e) => Err(e),
            }
        },
        DiscussionRunStatus::Running => {
            let mut run = with_progress(&current, DiscussionRunStatus::Stopping, current.sequence, current.output_text.clone());
            run.stop_reason = Some("author_stopped".to_owned());
            Ok(RunStep::Changed(RunChange { run, event: None, message: None }))
        },
        _ => Ok(RunStep::Replayed(current)),
    }
}

/// A running run asked to stop: status and reason change, nothing is appended.
pub open spec fn stopping(c: RunChange, run: DiscussionRun) -> bool {
    &&& same_identity(c.run, run)
    &&& c.run.status == DiscussionRunStatus::Stopping
    &&& c.run.dispatch_state == run.dispatch_state
    &&& c.run.sequence == run.sequence
    &&& c.run.output_text == run.output_text
    &&& c.run.stop_reason matches Some(s) && s@ == "author_stopped"@
    &&& c.event is None
    &&& c.message is None
}

// ------------------------------------------------------------- settle stop

pub open spec fn settled_status(cleanup: DiscussionStopCleanup) -> DiscussionRunStatus {
    match cleanup {
        DiscussionStopCleanup::Settled => DiscussionRunStatus::Stopped,
        DiscussionStopCleanup::Unresolved => DiscussionRunStatus::Interrupted,
    }
}

pub open spec fn settled_reason(cleanup: DiscussionStopCleanup) -> Seq<char> {
    match cleanup {
        DiscussionStopCleanup::Settled => "author_stopped"@,
        DiscussionStopCleanup::Unresolved => "stop_cleanup_unresolved"@,
    }
}

pub open spec fn settled_explanation(cleanup: DiscussionStopCleanup) -> Seq<char> {
    match cleanup {
        DiscussionStopCleanup::Settled => stop_settled_text(),
        DiscussionStopCleanup::Unresolved => stop_unresolved_text(),
    }
}

pub open spec fn settle_request_error(info: ProjectInfo, request: DiscussionStopSettled) -> Option<ErrorCode> {
    if !owner_ids_valid(request.owner) || !valid_id(request.event_id@) {
        Some(ErrorCode::InvalidRequest)
    } else if byte_len(request.assistant_text@) > MAX_OUTPUT_BYTES {
        Some(ErrorCode::OutputTooLarge)
    } else if !runtime_owner_ok(info, request.owner) {
        Some(ErrorCode::DiscussionProjectMismatch)
    } else if !version_ok(request.expected_sequence@) {
        Some(ErrorCode::InvalidRequest)
    } else {
        None
    }
}

pub open spec fn settle_replays(request: DiscussionStopSettled, run: DiscussionRun, ev: ExistingEvent) -> bool {
    &&& replay_matches(ev, EventKind::Terminal, request.assistant_text@, version_value(request.expected_sequence@))
    &&& run.status == settled_status(request.cleanup)
    &&& run.output_text@ == request.assistant_text@
}

pub open spec fn settle_run_error(request: DiscussionStopSettled, run: DiscussionRun, existing: Option<ExistingEvent>) -> Option<ErrorCode> {
    let expected = version_value(request.expected_sequence@);
    if !run.owner.same(request.owner) {
        Some(ErrorCode::DiscussionProjectMismatch)
    } else if existing is Some {
        if settle_replays(request, run, existing->0) {
            None
        } else {
            Some(ErrorCode::EventIdReused)
        }
    } else if run.status != DiscussionRunStatus::Stopping {
        Some(ErrorCode::RunSealed)
    } else if expected != run.sequence {
        Some(ErrorCode::SequenceConflict)
    } else if final_output_error(run.output_text@, request.assistant_text@, true) is Some {
        final_output_error(run.output_text@, request.assistant_text@, true)
    } else if run.sequence >= MAX_COUNTER {
        Some(ErrorCode::InvalidRequest)
    } else {
        None
    }
}

/// The stopped run keeps the worker's final partial text and explains the stop.
pub open spec fn stop_settled(c: RunChange, run: DiscussionRun, request: DiscussionStopSettled) -> bool {
    &&& same_identity(c.run, run)
    &&& c.run.status == settled_status(request.cleanup)
    &&& c.run.dispatch_state == run.dispatch_state
    &&& c.run.sequence == run.sequence + 1
    &&& c.run.output_text@ == request.assistant_text@
    &&& c.run.stop_reason matches Some(s) && s@ == settled_reason(request.cleanup)
    &&& c.event matches Some(ev) && ev.kind == EventKind::Terminal && ev.sequence == run.sequence + 1
        && ev.event_id@ == request.event_id@ && ev.chunk@ == request.assistant_text@
    &&& c.message matches Some(m) && m.content@ == terminal_content(request.assistant_text@,
        settled_explanation(request.cleanup)) && m.packet_id == Some(run.packet_id)
}

/// Records how a stopping run's worker ended: settled cleanup stops the run,
/// unresolved cleanup interrupts it.
pub fn settle_discussion_stop(
    info: &ProjectInfo,
    request: &DiscussionStopSettled,
    current: Result<DiscussionRun, CoreError>,
    existing: Option<ExistingEvent>,
) -> (r: Result<RunStep, CoreError>)
    ensures
        match settle_request_error(*info, *request) {
            Some(code) => fails_with(r, code),
            None => match current {
                Err(e) => r == Err::<RunStep, CoreError>(e),
                Ok(run) => match settle_run_error(*request, run, existing) {
                    Some(code) => fails_with(r, code),
                    None => if existing is Some {
                        r == Ok::<RunStep, CoreError>(RunStep::Replayed(run))
                    } else {
                        r matches Ok(RunStep::Changed(c)) && stop_settled(c, run, *request)
                    },
                },
            },
        },
{
    if let Err(e) = check_owner_ids_and_event(&request.owner, request.event_id.as_str()) {
        return Err(e);
    }
    if byte_length(request.assistant_text.as_str()) > MAX_OUTPUT_BYTES {
        return Err(CoreError::new(ErrorCode::OutputTooLarge, "The stopped discussion output exceeds the durable limit."));
    }
    if let Err(e) = validate_runtime_owner(info, &request.owner) {
        return Err(e);
    }
    let expected = match parse_version(request.expected_sequence.as_str()) {
        Ok(v) => v,
        Err(e) => return Err(e),
    };
    let current = match current {
        Ok(run) => run,
        Err(e) => return Err(e),
    };
    if let Err(e) = validate_owner(&current, &request.owner) {
        return Err(e);
    }
    let status = match request.cleanup {
        DiscussionStopCleanup::Settled => DiscussionRunStatus::Stopped,
        DiscussionStopCleanup::Unresolved => DiscussionRunStatus::Interrupted,
    };
    if let Some(ev) = &existing {
        if event_replays(ev, EventKind::Terminal, request.assistant_text.as_str(), expected)
            && current.status == status && str_eq(current.output_text.as_str(), request.assistant_text.as_str()) {
            return Ok(RunStep::Replayed(current));
        }
        return Err(CoreError::new(ErrorCode::EventIdReused, "A stop settlement event ID was reused with a different outcome, content, or sequence."));
    }
    if current.status != DiscussionRunStatus::Stopping {
        return Err(CoreError::new(ErrorCode::RunSealed, "Only a stopping discussion can be settled."));
    }
    if expected != current.sequence {
        return Err(CoreError::new(ErrorCode::SequenceConflict, "The stop settlement sequence is stale; reconcile the run before retrying."));
    }
    if let Err(e) = validate_final_output(current.output_text.as_str(), request.assistant_text.as_str(), true) {
        return Err(e);
    }
    if current.sequence >= MAX_COUNTER {
        return Err(CoreError::new(ErrorCode::InvalidRequest, "The output sequence is exhausted."));
    }
    let next = current.sequence + 1;
    let reason = match request.cleanup {
        DiscussionStopCleanup::Settled => "author_stopped",
        DiscussionStopCleanup::Unresolved => "stop_cleanup_unresolved",
    };
    let explanation = match request.cleanup {
        DiscussionStopCleanup::Settled => stop_settled_message(),
        DiscussionStopCleanup::Unresolved => stop_unresolved_message(),
    };
    let mut run = with_progress(&current, status, next, request.assistant_text.clone());
    run.stop_reason = Some(reason.to_owned());
    let content = terminal_content_text(request.assistant_text.as_str(), explanation);
    Ok(RunStep::Changed(RunChange {
        run,
        event: Some(OutputEvent { sequence: next, event_id: request.event_id.clone(), kind: EventKind::Terminal, chunk: request.assistant_text.clone() }),
        message: Some(AssistantMessage { content, packet_id: Some(current.packet_id.clone()) }),
    }))
}

fn check_owner_ids_and_event(owner: &RunOwner, event_id: &str) -> (r: Result<(), CoreError>)
    ensures
        r is Ok <==> owner_ids_valid(*owner) && valid_id(event_id@),
        r matches Err(e) ==> e.code == ErrorCode::InvalidRequest,
{
    if let Err(e) = crate::lifecycle::check_owner_ids(owner) {
        return Err(e);
    }
    check_id(event_id)
}


// ---------------------------------------------------------------- delivered

pub open spec fn delivered_error(info: ProjectInfo, owner: RunOwner) -> Option<ErrorCode> {
    if !owner_ids_valid(owner) {
        Some(ErrorCode::InvalidRequest)
    } else if !runtime_owner_ok(info, owner) {
        Some(ErrorCode::DiscussionProjectMismatch)
    } else {
        None
    }
}

pub open spec fn delivered_run_error(owner: RunOwner, run: DiscussionRun) -> Option<ErrorCode> {
    if !run.owner.same(owner) {
        Some(ErrorCode::DiscussionProjectMismatch)
    } else if run.provider_binding is Some {
        Some(ErrorCode::ProviderResultRequired)
    } else if run.status == DiscussionRunStatus::Stopping {
        Some(ErrorCode::RunStopping)
    } else if run.status != DiscussionRunStatus::Running {
        Some(ErrorCode::RunSealed)
    } else {
        None
    }
}

/// Marks a running mock run as delivered; only its dispatch state changes.
pub fn mark_discussion_delivered(
    info: &ProjectInfo,
    owner: &RunOwner,
    current: Result<DiscussionRun, CoreError>,
) -> (r: Result<DiscussionRun, CoreError>)
    ensures
        match delivered_error(*info, *owner) {
            Some(code) => fails_with(r, code),
            None => match current {
                Err(e) => r == Err::<DiscussionRun, CoreError>(e),
                Ok(run) => match delivered_run_error(*owner, run) {
                    Some(code) => fails_with(r, code),
                    None => r matches Ok(next) && same_identity(next, run)
                        && next.dispatch_state == DispatchState::Delivered && next.status == run.status
                        && next.sequence == run.sequence && next.output_text == run.output_text
                        && next.stop_reason == run.stop_reason,
                },
            },
        },
{
    if let Err(e) = crate::lifecycle::check_owner_ids(owner) {
        return Err(e);
    }
    if let Err(e) = validate_runtime_owner(info, owner) {
        return Err(e);
    }
    let current = match current {
        Ok(run) => run,
        Err(e) => return Err(e),
    };
    if let Err(e) = validate_owner(&current, owner) {
        return Err(e);
    }
    if current.provider_binding.is_some() {
        return Err(CoreError::new(ErrorCode::ProviderResultRequired, "A live discussion can be delivered only through its typed provider result."));
    }
    if current.status == DiscussionRunStatus::Stopping {
        return Err(CoreError::new(ErrorCode::RunStopping, "The discussion is stopping and cannot be marked delivered before cleanup settles."));
    }
    if current.status != DiscussionRunStatus::Running {
        return Err(CoreError::new(ErrorCode::RunSealed, "Only a running discussion can be marked delivered."));
    }
    let mut run = with_progress(&current, current.status, current.sequence, current.output_text.clone());
    run.dispatch_state = DispatchState::Delivered;
    Ok(run)
}

// -------------------------------------------------------------------- begin

/// The epochs a queued run was frozen at, and the project's current ones.
#[derive(Debug, Clone, Copy)]
pub struct ContextFreshness {
    pub snapshot_source_epoch: i64,
    pub snapshot_policy_epoch: i64,
    pub source_epoch: i64,
    pub policy_epoch: i64,
    /// Whether a project-chat basis (if the snapshot has one) is still current;
    /// consulted only when both epochs match.
    pub project_chat_current: bool,
}

pub open spec fn context_current(f: ContextFreshness) -> bool {
    f.snapshot_source_epoch == f.source_epoch && f.snapshot_policy_epoch == f.policy_epoch
        && f.project_chat_current
}

/// What a dispatcher's claim on a queued run decides.
#[derive(Debug)]
pub enum BeginOutcome {
    /// The run is now running and claimed by this dispatcher.
    Claimed(DiscussionRun),
    /// The frozen context is no longer current: the run is sealed as failed
    /// (commit this change) and the claim is refused as `ContextChanged`.
    Stale(RunChange),
}

pub open spec fn stale_event_id(run_id: Seq<char>) -> Seq<char> {
    "system-stale-"@ + run_id
}

pub open spec fn stale_message() -> Seq<char> {
    "The story changed before this discussion started; the saved response was not dispatched."@
}

pub open spec fn begin_run_error(owner: RunOwner, run: DiscussionRun, freshness: ContextFreshness) -> Option<ErrorCode> {
    if !run.owner.same(owner) {
        Some(ErrorCode::DiscussionProjectMismatch)
    } else {
        match run.status {
            DiscussionRunStatus::Queued => if !context_current(freshness) {
                seal_error(run, DiscussionRunStatus::Failed, "context_stale"@, stale_event_id(run.id@), stale_message())
            } else if run.dispatch_state != DispatchState::Pending {
                Some(ErrorCode::RunAlreadyStarted)
            } else {
                None
            },
            DiscussionRunStatus::Running => Some(ErrorCode::RunAlreadyStarted),
            _ => Some(ErrorCode::RunSealed),
        }
    }
}

/// Claims a queued run for one dispatcher, or seals it as stale when the
/// story or disclosure policy changed since it was frozen.
pub fn begin_discussion_run(
    info: &ProjectInfo,
    request: &DiscussionBegin,
    current: Result<DiscussionRun, CoreError>,
    freshness: ContextFreshness,
) -> (r: Result<BeginOutcome, CoreError>)
    ensures
        match delivered_error(*info, request.owner) {
            Some(code) => fails_with(r, code),
            None => match current {
                Err(e) => r == Err::<BeginOutcome, CoreError>(e),
                Ok(run) => match begin_run_error(request.owner, run, freshness) {
                    Some(code) => fails_with(r, code),
                    None => if !context_current(freshness) {
                        r matches Ok(BeginOutcome::Stale(c)) && sealed(c, run, DiscussionRunStatus::Failed,
                            "context_stale"@, stale_event_id(run.id@), stale_message())
                    } else {
                        r matches Ok(BeginOutcome::Claimed(next)) && same_identity(next, run)
                            && next.status == DiscussionRunStatus::Running
                            && next.dispatch_state == DispatchState::Claimed
                            && next.sequence == run.sequence && next.output_text == run.output_text
                            && next.stop_reason == run.stop_reason
                    },
                },
            },
        },
{
    if let Err(e) = crate::lifecycle::check_owner_ids(&request.owner) {
        return Err(e);
    }
    if let Err(e) = validate_runtime_owner(info, &request.owner) {
        return Err(e);
    }
    let current = match current {
        Ok(run) => run,
        Err(e) => return Err(e),
    };
    if let Err(e) = validate_owner(&current, &request.owner) {
        return Err(e);
    }
    match current.status {
        DiscussionRunStatus::Queued => {
            let fresh = freshness.snapshot_source_epoch == freshness.source_epoch
                && freshness.snapshot_policy_epoch == freshness.policy_epoch
                && freshness.project_chat_current;
            if !fresh {
                let event_id = concat("system-stale-", current.id.as_str());
                return match seal_run(&current, DiscussionRunStatus::Failed, "context_stale", event_id.as_str(), "The story changed before this discussion started; the saved response was not dispatched.") {
                    Ok(change) => Ok(BeginOutcome::Stale(change)),
                    Err(e) => Err(e),
                };
            }
            if current.dispatch_state != DispatchState::Pending {
                return Err(CoreError::new(ErrorCode::RunAlreadyStarted, "Another dispatcher already claimed this discussion run."));
            }
            let mut run = with_progress(&current, DiscussionRunStatus::Running, current.sequence, current.output_text.clone());
            run.dispatch_state = DispatchState::Claimed;
            Ok(BeginOutcome::Claimed(run))
        },
        DiscussionRunStatus::Running => Err(CoreError::new(ErrorCode::RunAlreadyStarted, "This discussion run is already claimed by a dispatcher.")),
        _ => Err(CoreError::new(ErrorCode::RunSealed, "This discussion run is no longer dispatchable.")),
    }
}

// ---------------------------------------------------------------- interrupt

pub open spec fn interrupted_event_id(run_id: Seq<char>) -> Seq<char> {
    "system-interrupted-"@ + run_id
}

/// Interrupts one exact active run after its worker was fenced at project
/// close; a terminal run is returned unchanged. A changed run also stops its
/// lookup chain. The caller has already checked `access` against the session.
pub fn interrupt_discussion(
    access: &ProjectAccess,
    run_id: &str,
    current: Result<DiscussionRun, CoreError>,
) -> (r: Result<ChainStep, CoreError>)
    ensures
        !valid_id(run_id@) ==> fails_with(r, ErrorCode::InvalidRequest),
        valid_id(run_id@) ==> match current {
            Err(e) => r == Err::<ChainStep, CoreError>(e),
            Ok(run) => if !same_session(*access, run) {
                fails_with(r, ErrorCode::DiscussionProjectMismatch)
            } else if run.status.spec_active() {
                match seal_error(run, DiscussionRunStatus::Interrupted, "project_close_cleanup"@,
                    interrupted_event_id(run.id@), stop_unresolved_text()) {
                    Some(code) => fails_with(r, code),
                    None => r matches Ok(s) && s.stop_chain && (s.step matches RunStep::Changed(c) && sealed(c, run,
                        DiscussionRunStatus::Interrupted, "project_close_cleanup"@,
                        interrupted_event_id(run.id@), stop_unresolved_text())),
                }
            } else {
                r matches Ok(s) && !s.stop_chain && s.step == RunStep::Replayed(run)
            },
        },
{
    if let Err(e) = check_id(run_id) {
        return Err(e);
    }
    let current = match current {
        Ok(run) => run,
        Err(e) => return Err(e),
    };
    if !str_eq(current.owner.project_id.as_str(), access.project_id.as_str()) || !str_eq(
        current.owner.operation_namespace.as_str(),
        access.operation_namespace.as_str(),
    ) {
        return Err(CoreError::new(ErrorCode::DiscussionProjectMismatch, "This run belongs to another project session."));
    }
    if current.status.active() {
        let event_id = concat("system-interrupted-", current.id.as_str());
        match seal_run(&current, DiscussionRunStatus::Interrupted, "project_close_cleanup", event_id.as_str(), stop_unresolved_message()) {
            Ok(change) => Ok(ChainStep { step: RunStep::Changed(change), stop_chain: true }),
            Err(e) => Err(e),
        }
    } else {
        Ok(ChainStep { step: RunStep::Replayed(current), stop_chain: false })
    }
}

// ------------------------------------------------------------------ recover

pub open spec fn reopened_message() -> Seq<char> {
    "The project was reopened before this discussion produced a complete response."@
}

/// Seals every active run found when a project is reopened as interrupted
/// history, in the order given. Each sealed run also stops its lookup chain.
/// Returns the changes, their count, and the directive to stop each sealed
/// run's lookup chain with it.
pub fn recover_interrupted_discussions(active: Vec<DiscussionRun>) -> (r: Result<(Vec<RunChange>, u32, bool), CoreError>)
    ensures
        (forall|i: int| 0 <= i < active@.len() ==> seal_error(active@[i], DiscussionRunStatus::Interrupted,
            "project_reopened"@, interrupted_event_id(active@[i].id@), reopened_message()) is None)
            && active@.len() <= u32::MAX <==> r is Ok,
        r matches Ok((changes, n, stop_chains)) ==> stop_chains && n == active@.len() && changes@.len() == active@.len()
            && forall|i: int| 0 <= i < active@.len() ==> sealed(#[trigger] changes@[i], active@[i],
                DiscussionRunStatus::Interrupted, "project_reopened"@,
                interrupted_event_id(active@[i].id@), reopened_message()),
{
    let mut changes: Vec<RunChange> = Vec::new();
    let n = active.len();
    let mut i: usize = 0;
    while i < n
        invariant
            n == active@.len(),
            0 <= i <= n,
            changes@.len() == i,
            forall|j: int| 0 <= j < i ==> seal_error(active@[j], DiscussionRunStatus::Interrupted,
                "project_reopened"@, interrupted_event_id(active@[j].id@), reopened_message()) is None,
            forall|j: int| 0 <= j < i ==> sealed(#[trigger] changes@[j], active@[j],
                DiscussionRunStatus::Interrupted, "project_reopened"@,
                interrupted_event_id(active@[j].id@), reopened_message()),
        decreases n - i,
    {
        let run = &active[i];
        let event_id = concat("system-interrupted-", run.id.as_str());
        match seal_run(run, DiscussionRunStatus::Interrupted, "project_reopened", event_id.as_str(), "The project was reopened before this discussion produced a complete response.") {
            Ok(change) => changes.push(change),
            Err(e) => return Err(e),
        }
        i += 1;
    }
    if n > 4294967295 {
        return Err(CoreError::new(ErrorCode::InvalidProject, "Too many discussion jobs."));
    }
    Ok((changes, n as u32, true))
}


// --------------------------------------------------------------------- laws

/// Recovery leaves nothing to recover: every run a recovery seals is
/// interrupted, so none of them is active any more; with no discussion
/// started since, a second recovery reads no active run and (by its
/// contract, on an empty list) seals nothing and reports a count of 0.
pub proof fn law_recovery_leaves_nothing_active(active: Seq<DiscussionRun>, changes: Seq<RunChange>)
    requires
        changes.len() == active.len(),
        forall|i: int| 0 <= i < active.len() ==> sealed(#[trigger] changes[i], active[i],
            DiscussionRunStatus::Interrupted, "project_reopened"@, interrupted_event_id(active[i].id@), reopened_message()),
    ensures
        forall|i: int| 0 <= i < changes.len() ==> !(#[trigger] changes[i]).run.status.spec_active(),
{
    assert forall|i: int| 0 <= i < changes.len() implies !(#[trigger] changes[i]).run.status.spec_active() by {
        assert(sealed(changes[i], active[i], DiscussionRunStatus::Interrupted, "project_reopened"@,
            interrupted_event_id(active[i].id@), reopened_message()));
    }
}

/// The event a committed change recorded, as a later lookup of its ID reads it.
pub open spec fn recorded(ev: OutputEvent) -> ExistingEvent {
    ExistingEvent { kind: ev.kind, chunk: ev.chunk, sequence: ev.sequence }
}

/// Output already accepted is never replaced: every committed chunk, finish,
/// stop settlement or seal advances the sequence by exactly one and keeps the
/// previous output as a prefix of the new output.
pub proof fn law_accepted_output_is_kept(
    c: RunChange,
    run: DiscussionRun,
    append: DiscussionOutputAppend,
    finish: DiscussionFinish,
    settle: DiscussionStopSettled,
    status: DiscussionRunStatus,
    reason: Seq<char>,
    event_id: Seq<char>,
    message: Seq<char>,
)
    ensures
        appended(c, run, append) ==> c.run.sequence == run.sequence + 1
            && run.output_text@.is_prefix_of(c.run.output_text@),
        finished(c, run, finish) && finish_run_error(finish, run, None) is None
            ==> c.run.sequence == run.sequence + 1 && run.output_text@.is_prefix_of(c.run.output_text@),
        stop_settled(c, run, settle) && settle_run_error(settle, run, None) is None
            ==> c.run.sequence == run.sequence + 1 && run.output_text@.is_prefix_of(c.run.output_text@),
        sealed(c, run, status, reason, event_id, message) ==> c.run.sequence == run.sequence + 1
            && run.output_text@.is_prefix_of(c.run.output_text@),
{
    if appended(c, run, append) {
        assert(run.output_text@ =~= c.run.output_text@.subrange(0, run.output_text@.len() as int));
    }
    if sealed(c, run, status, reason, event_id, message) {
        assert(run.output_text@ =~= c.run.output_text@.subrange(0, run.output_text@.len() as int));
    }
}

/// A sealed run is terminal for good: it cannot be sealed again, and it
/// accepts no further chunk, finish or stop settlement under a new event ID.
pub proof fn law_sealed_run_is_final(
    c: RunChange,
    run: DiscussionRun,
    status: DiscussionRunStatus,
    reason: Seq<char>,
    event_id: Seq<char>,
    message: Seq<char>,
    next_status: DiscussionRunStatus,
    next_reason: Seq<char>,
    next_event_id: Seq<char>,
    next_message: Seq<char>,
    append: DiscussionOutputAppend,
    finish: DiscussionFinish,
    settle: DiscussionStopSettled,
)
    requires
        seal_error(run, status, reason, event_id, message) is None,
        sealed(c, run, status, reason, event_id, message),
    ensures
        c.run.status.spec_terminal(),
        seal_error(c.run, next_status, next_reason, next_event_id, next_message) == Some(ErrorCode::RunSealed),
        append.owner == c.run.owner && c.run.lookup is None ==> append_run_error(append, c.run, None) == Some(ErrorCode::RunSealed),
        finish.owner == c.run.owner && c.run.lookup is None && c.run.provider_binding is None
            ==> finish_run_error(finish, c.run, None) == Some(ErrorCode::RunSealed),
        settle.owner == c.run.owner ==> settle_run_error(settle, c.run, None) == Some(ErrorCode::RunSealed),
{
}

/// A chunk delivered twice is applied once: re-sending an accepted append
/// with the same event ID, chunk and expected sequence replays the run.
pub proof fn law_append_replays(c: RunChange, run: DiscussionRun, request: DiscussionOutputAppend)
    requires
        append_run_error(request, run, None) is None,
        appended(c, run, request),
    ensures
        append_run_error(request, c.run, Some(recorded(c.event->0))) is None,
{
}

/// A finish delivered twice is applied once.
pub proof fn law_finish_replays(c: RunChange, run: DiscussionRun, request: DiscussionFinish)
    requires
        finish_run_error(request, run, None) is None,
        finished(c, run, request),
    ensures
        finish_run_error(request, c.run, Some(recorded(c.event->0))) is None,
{
}

/// A stop settlement delivered twice is applied once.
pub proof fn law_settle_replays(c: RunChange, run: DiscussionRun, request: DiscussionStopSettled)
    requires
        settle_run_error(request, run, None) is None,
        stop_settled(c, run, request),
    ensures
        settle_run_error(request, c.run, Some(recorded(c.event->0))) is None,
{
}

/// Stopping a running run hands the settlement to its worker: the stopping
/// run accepts a stop settlement at its current sequence and refuses any
/// further chunk.
pub proof fn law_stop_then_settle(c: RunChange, run: DiscussionRun, settle: DiscussionStopSettled, append: DiscussionOutputAppend)
    requires
        stopping(c, run),
        settle.owner == run.owner,
        version_value(settle.expected_sequence@) == run.sequence,
        final_output_error(run.output_text@, settle.assistant_text@, true) is None,
        run.sequence < MAX_COUNTER,
    ensures
        settle_run_error(settle, c.run, None) is None,
        append.owner == run.owner && run.lookup is None ==> append_run_error(append, c.run, None) == Some(ErrorCode::RunStopping),
{
}

/// A stop settlement ends the run as a stopped provider call with the same
/// cleanup would: a settled cleanup leaves it stopped for the author's
/// reason, an unresolved one interrupted; the run is never left active.
pub proof fn law_stop_settlement_status(c: RunChange, run: DiscussionRun, request: DiscussionStopSettled)
    requires
        stop_settled(c, run, request),
    ensures
        !c.run.status.spec_active(),
        request.cleanup == DiscussionStopCleanup::Settled ==> c.run.status == DiscussionRunStatus::Stopped
            && (c.run.stop_reason matches Some(s) && s@ == "author_stopped"@),
        request.cleanup == DiscussionStopCleanup::Unresolved ==> c.run.status == DiscussionRunStatus::Interrupted,
        c.run.status == crate::provider::settled_status(DiscussionRunStatus::Stopping, ProviderOutcomeStatus::Stopped,
            if request.cleanup == DiscussionStopCleanup::Settled { ProviderCleanup::Settled } else { ProviderCleanup::Unresolved }),
{
}

} // verus!
