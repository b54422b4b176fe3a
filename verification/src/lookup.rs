//! The bounded story-lookup loop of a discussion: the invocation state
//! machine, the report validators, the byte allowance, and the decisions that
//! claim, settle, expand or halt a lookup chain.
use vstd::prelude::*;
use crate::error::{CoreError, ErrorCode, fails_with};
use crate::lifecycle::{finish_shape_error, validate_finish_request, stop_settled_message, stop_unresolved_message, MAX_COUNTER, check_owner_ids, ensure_run_started, owner_ids_valid, runtime_owner_ok, seal_error, seal_run, sealed, started_error, stop_settled_text, stop_unresolved_text, validate_owner, validate_runtime_owner, MAX_ERROR_BYTES, MAX_OUTPUT_BYTES};
use crate::operations::{same_identity, with_progress};
use crate::text::{byte_len, byte_length, check_id, concat, decimal_chars, has_control, has_unsafe_control, is_blank, parse_decimal_u64, parse_version, text_has_control, text_has_unsafe_control, text_is_blank, valid_id, version_ok, version_value, canonical_decimal, decimal_value};
use crate::text::{is_digit_byte, negative_text, unsigned_part, integer_text_ok, integer_text_value, parse_lookup_counter, push_decimal};
use crate::vocab::{opt_str_eq, opt_view, same_opt_binding, same_opt_binding_exec, str_eq, DiscussionRun, DiscussionRunStatus, LookupAllowance, ProjectInfo, ProviderBinding, ProviderCleanup, ProviderOutcomeStatus, AssistantMessage, EventKind, OutputEvent, RunChange, RunOwner, RunStep, ChainStep};
use vstd::utf8::encode_utf8;

verus! {

broadcast use vstd::string::group_string_axioms;

/// A lookup chain has at most three invocations: the root and two expansions.
pub const MAX_LOOKUP_INVOCATIONS: u8 = 3;

/// Where one lookup invocation stands.
#[derive(Debug, Clone, Copy, PartialEq, Eq, Structural)]
pub enum LookupInvocationState {
    Prepared,
    Claimed,
    NeedsContext,
    Completed,
    Failed,
    Stopped,
    Unknown,
}

impl LookupInvocationState {
    pub open spec fn spec_name(self) -> Seq<char> {
        match self {
            LookupInvocationState::Prepared => "prepared"@,
            LookupInvocationState::Claimed => "claimed"@,
            LookupInvocationState::NeedsContext => "needs_context"@,
            LookupInvocationState::Completed => "completed"@,
            LookupInvocationState::Failed => "failed"@,
            LookupInvocationState::Stopped => "stopped"@,
            LookupInvocationState::Unknown => "unknown"@,
        }
    }

    pub fn as_str(&self) -> (r: &'static str)
        ensures
            r@ == self.spec_name(),
    {
        match self {
            LookupInvocationState::Prepared => "prepared",
            LookupInvocationState::Claimed => "claimed",
            LookupInvocationState::NeedsContext => "needs_context",
            LookupInvocationState::Completed => "completed",
            LookupInvocationState::Failed => "failed",
            LookupInvocationState::Stopped => "stopped",
            LookupInvocationState::Unknown => "unknown",
        }
    }
}

/// What a provider's well-formed lookup envelope asked for.
#[derive(Debug, Clone, Copy, PartialEq, Eq, Structural)]
pub enum ResponseKind {
    NeedsContext,
    Discussion,
}

impl ResponseKind {
    pub open spec fn spec_state(self) -> LookupInvocationState {
        match self {
            ResponseKind::NeedsContext => LookupInvocationState::NeedsContext,
            ResponseKind::Discussion => LookupInvocationState::Completed,
        }
    }

    pub fn state(self) -> (r: LookupInvocationState)
        ensures
            r == self.spec_state(),
    {
        match self {
            ResponseKind::NeedsContext => LookupInvocationState::NeedsContext,
            ResponseKind::Discussion => LookupInvocationState::Completed,
        }
    }
}

/// The state an invocation takes once its provider result is stored.
pub open spec fn spec_outcome_state(parsed: Option<ResponseKind>, status: ProviderOutcomeStatus, cleanup: ProviderCleanup) -> LookupInvocationState {
    match parsed {
        Some(kind) => kind.spec_state(),
        None => if cleanup == ProviderCleanup::Unresolved {
            LookupInvocationState::Unknown
        } else if status == ProviderOutcomeStatus::Stopped {
            LookupInvocationState::Stopped
        } else {
            LookupInvocationState::Failed
        },
    }
}

pub fn outcome_state(parsed: Option<ResponseKind>, status: ProviderOutcomeStatus, cleanup: ProviderCleanup) -> (r: LookupInvocationState)
    ensures
        r == spec_outcome_state(parsed, status, cleanup),
{
    match parsed {
        Some(kind) => kind.state(),
        None => if cleanup == ProviderCleanup::Unresolved {
            LookupInvocationState::Unknown
        } else if status == ProviderOutcomeStatus::Stopped {
            LookupInvocationState::Stopped
        } else {
            LookupInvocationState::Failed
        },
    }
}

/// Stopping a chain: a claimed call's fate is unknown, a prepared one never
/// runs, and a settled one keeps its state.
pub open spec fn spec_chain_stopped(state: LookupInvocationState) -> LookupInvocationState {
    match state {
        LookupInvocationState::Claimed => LookupInvocationState::Unknown,
        LookupInvocationState::Prepared => LookupInvocationState::Stopped,
        other => other,
    }
}

pub fn chain_stopped(state: LookupInvocationState) -> (r: LookupInvocationState)
    ensures
        r == spec_chain_stopped(state),
{
    match state {
        LookupInvocationState::Claimed => LookupInvocationState::Unknown,
        LookupInvocationState::Prepared => LookupInvocationState::Stopped,
        other => other,
    }
}

/// Every invocation of a stopped chain is settled.
pub fn mark_chain_stopped(states: &Vec<LookupInvocationState>) -> (r: Vec<LookupInvocationState>)
    ensures
        r@.len() == states@.len(),
        forall|i: int| 0 <= i < states@.len() ==> r@[i] == spec_chain_stopped(#[trigger] states@[i]),
{
    let mut out: Vec<LookupInvocationState> = Vec::new();
    let n = states.len();
    let mut i: usize = 0;
    while i < n
        invariant
            n == states@.len(),
            0 <= i <= n,
            out@.len() == i,
            forall|j: int| 0 <= j < i ==> out@[j] == spec_chain_stopped(#[trigger] states@[j]),
        decreases n - i,
    {
        out.push(chain_stopped(states[i]));
        i += 1;
    }
    out
}

// ------------------------------------------------------------------ ordinals

pub open spec fn ordinal_error(value: Seq<char>) -> Option<ErrorCode> {
    if !version_ok(value) {
        Some(ErrorCode::InvalidRequest)
    } else if version_value(value) >= MAX_LOOKUP_INVOCATIONS {
        Some(ErrorCode::InvalidLookupCounter)
    } else {
        None
    }
}

/// A lookup ordinal is 0, 1 or 2.
pub fn parse_lookup_ordinal(value: &str) -> (r: Result<u8, CoreError>)
    ensures
        match ordinal_error(value@) {
            None => r matches Ok(o) && o == version_value(value@),
            Some(code) => fails_with(r, code),
        },
{
    let ordinal = match parse_version(value) {
        Ok(v) => v,
        Err(e) => return Err(e),
    };
    if ordinal >= MAX_LOOKUP_INVOCATIONS as u64 {
        return Err(CoreError::new(ErrorCode::InvalidLookupCounter, "A lookup invocation ordinal must be 0, 1, or 2."));
    }
    Ok(ordinal as u8)
}

// ------------------------------------------------------------------ reports

/// A provider worker's report of one lookup invocation.
#[derive(Debug)]
pub struct LookupInvocationReport {
    pub owner: RunOwner,
    pub ordinal: String,
    pub event_id: String,
    pub assistant_text: String,
    pub binding: Option<ProviderBinding>,
    pub status: ProviderOutcomeStatus,
    pub confirmed_stdin_bytes: String,
    /// The provider usage in its canonical serialized form.
    pub usage: Option<String>,
    pub cleanup: ProviderCleanup,
    pub error: Option<String>,
}

/// A sanitized provider error: nonempty, at most 4 KiB, no control characters.
pub open spec fn sanitized_error(e: Seq<char>) -> bool {
    e.len() > 0 && byte_len(e) <= MAX_ERROR_BYTES && !has_control(e)
}

pub fn is_sanitized_error(e: &str) -> (r: bool)
    ensures
        r == sanitized_error(e@),
{
    !e.is_empty() && byte_length(e) <= MAX_ERROR_BYTES && !text_has_control(e)
}

pub open spec fn report_shape_error(request: LookupInvocationReport) -> Option<ErrorCode> {
    if !owner_ids_valid(request.owner) || !valid_id(request.event_id@) {
        Some(ErrorCode::InvalidRequest)
    } else if ordinal_error(request.ordinal@) is Some {
        ordinal_error(request.ordinal@)
    } else if byte_len(request.assistant_text@) > MAX_OUTPUT_BYTES || has_unsafe_control(request.assistant_text@) {
        Some(ErrorCode::OutputTooLarge)
    } else if request.error matches Some(e) && !sanitized_error(e@) {
        Some(ErrorCode::InvalidRequest)
    } else if request.status == ProviderOutcomeStatus::Completed && (request.assistant_text@.len() == 0
        || request.error is Some || request.cleanup == ProviderCleanup::Unresolved) {
        Some(ErrorCode::InvalidRequest)
    } else {
        None
    }
}

/// A lookup report is well formed: bounded clean output, a sanitized error,
/// and a completed call carries only its envelope with settled cleanup.
pub fn validate_lookup_report_shape(request: &LookupInvocationReport) -> (r: Result<(), CoreError>)
    ensures
        match report_shape_error(*request) {
            None => r is Ok,
            Some(code) => fails_with(r, code),
        },
{
    if let Err(e) = check_owner_ids(&request.owner) {
        return Err(e);
    }
    if let Err(e) = check_id(request.event_id.as_str()) {
        return Err(e);
    }
    if let Err(e) = parse_lookup_ordinal(request.ordinal.as_str()) {
        return Err(e);
    }
    if byte_length(request.assistant_text.as_str()) > MAX_OUTPUT_BYTES || text_has_unsafe_control(request.assistant_text.as_str()) {
        return Err(CoreError::new(ErrorCode::OutputTooLarge, "The lookup provider response is too large or contains control characters."));
    }
    if let Some(error) = &request.error {
        if !is_sanitized_error(error.as_str()) {
            return Err(CoreError::new(ErrorCode::InvalidRequest, "The lookup provider error must be sanitized and at most 4 KiB."));
        }
    }
    if request.status == ProviderOutcomeStatus::Completed {
        if request.assistant_text.as_str().is_empty() || request.error.is_some() {
            return Err(CoreError::new(ErrorCode::InvalidRequest, "A completed lookup invocation must include only a response envelope."));
        }
        if request.cleanup == ProviderCleanup::Unresolved {
            return Err(CoreError::new(ErrorCode::InvalidRequest, "A completed lookup invocation must have settled cleanup."));
        }
    }
    Ok(())
}

pub open spec fn failure_reason_name(status: ProviderOutcomeStatus, cleanup: ProviderCleanup) -> Seq<char> {
    if cleanup == ProviderCleanup::Unresolved {
        "lookup_cleanup_unresolved"@
    } else {
        match status {
            ProviderOutcomeStatus::Completed => "lookup_invalid_response"@,
            ProviderOutcomeStatus::Stopped => "lookup_stopped"@,
            ProviderOutcomeStatus::TimedOut => "lookup_timed_out"@,
            ProviderOutcomeStatus::OutputLimit => "lookup_output_limit"@,
            ProviderOutcomeStatus::Failed => "lookup_failed"@,
        }
    }
}

/// The stop reason a lookup chain is sealed with when its call produced no
/// usable envelope.
pub fn lookup_failure_reason(status: ProviderOutcomeStatus, cleanup: ProviderCleanup) -> (r: &'static str)
    ensures
        r@ == failure_reason_name(status, cleanup),
{
    if cleanup == ProviderCleanup::Unresolved {
        "lookup_cleanup_unresolved"
    } else {
        match status {
            ProviderOutcomeStatus::Completed => "lookup_invalid_response",
            ProviderOutcomeStatus::Stopped => "lookup_stopped",
            ProviderOutcomeStatus::TimedOut => "lookup_timed_out",
            ProviderOutcomeStatus::OutputLimit => "lookup_output_limit",
            ProviderOutcomeStatus::Failed => "lookup_failed",
        }
    }
}

/// The immutable result row already recorded for an invocation.
#[derive(Debug)]
pub struct LookupResultRecord {
    pub event_id: String,
    pub assistant_text: String,
    pub outcome: String,
    pub confirmed_stdin_bytes: i64,
    pub cleanup: String,
    pub error: Option<String>,
    pub binding_json: Option<String>,
    pub usage_json: Option<String>,
}

pub open spec fn binding_json(b: Option<ProviderBinding>) -> Option<Seq<char>> {
    match b {
        Some(x) => Some(x.canonical_json@),
        None => None,
    }
}

/// A retried report matches the recorded result: same event, text, counters,
/// cleanup, binding and usage, where a completed report whose envelope was
/// refused is recorded as failed with the refusal as its error.
pub open spec fn result_matches(saved: LookupResultRecord, request: LookupInvocationReport) -> bool {
    let completed = request.status == ProviderOutcomeStatus::Completed;
    let confirmed_ok = canonical_decimal(encode_utf8(request.confirmed_stdin_bytes@))
        && decimal_value(encode_utf8(request.confirmed_stdin_bytes@)) <= i64::MAX
        && decimal_value(encode_utf8(request.confirmed_stdin_bytes@)) == saved.confirmed_stdin_bytes;
    &&& saved.event_id@ == request.event_id@
    &&& saved.assistant_text@ == request.assistant_text@
    &&& (saved.outcome@ == request.status.spec_name() || (completed && saved.outcome@ == "failed"@))
    &&& confirmed_ok
    &&& saved.cleanup@ == request.cleanup.spec_name()
    &&& (opt_view(saved.error) == opt_view(request.error) || (completed && saved.outcome@ == "failed"@
        && request.error is None && saved.error is Some))
    &&& opt_view(saved.binding_json) == binding_json(request.binding)
    &&& opt_view(saved.usage_json) == opt_view(request.usage)
}

pub fn lookup_result_matches(saved: &LookupResultRecord, request: &LookupInvocationReport) -> (r: bool)
    ensures
        r == result_matches(*saved, *request),
{
    proof {
        reveal_strlit("failed");
    }
    let completed = request.status == ProviderOutcomeStatus::Completed;
    let failed = str_eq(saved.outcome.as_str(), "failed");
    let confirmed_matches = match parse_decimal_u64(request.confirmed_stdin_bytes.as_str()) {
        Ok(v) => v <= i64::MAX as u64 && saved.confirmed_stdin_bytes >= 0 && v == saved.confirmed_stdin_bytes as u64,
        Err(_) => false,
    };
    let error_matches = opt_str_eq(&saved.error, &request.error) || (completed && failed
        && request.error.is_none() && saved.error.is_some());
    let binding_matches = match (&saved.binding_json, &request.binding) {
        (Some(j), Some(b)) => str_eq(j.as_str(), b.canonical_json.as_str()),
        (None, None) => true,
        _ => false,
    };
    str_eq(saved.event_id.as_str(), request.event_id.as_str())
        && str_eq(saved.assistant_text.as_str(), request.assistant_text.as_str())
        && (str_eq(saved.outcome.as_str(), request.status.as_str()) || (completed && failed))
        && confirmed_matches
        && str_eq(saved.cleanup.as_str(), request.cleanup.as_str())
        && error_matches
        && binding_matches
        && opt_str_eq(&saved.usage_json, &request.usage)
}


impl LookupInvocationState {
    /// Reads a stored invocation state back.
    pub fn parse(value: &str) -> (r: Result<LookupInvocationState, CoreError>)
        ensures
            r matches Ok(s) ==> s.spec_name() == value@,
            r is Err ==> forall|s: LookupInvocationState| s.spec_name() != value@,
            r matches Err(e) ==> e.code == ErrorCode::InvalidProject,
    {
        let all = [
            LookupInvocationState::Prepared,
            LookupInvocationState::Claimed,
            LookupInvocationState::NeedsContext,
            LookupInvocationState::Completed,
            LookupInvocationState::Failed,
            LookupInvocationState::Stopped,
            LookupInvocationState::Unknown,
        ];
        let mut i: usize = 0;
        while i < 7
            invariant
                0 <= i <= 7,
                all@ == seq![
                    LookupInvocationState::Prepared,
                    LookupInvocationState::Claimed,
                    LookupInvocationState::NeedsContext,
                    LookupInvocationState::Completed,
                    LookupInvocationState::Failed,
                    LookupInvocationState::Stopped,
                    LookupInvocationState::Unknown,
                ],
                forall|j: int| 0 <= j < i ==> (#[trigger] all@[j]).spec_name() != value@,
            decreases 7 - i,
        {
            if str_eq(all[i].as_str(), value) {
                return Ok(all[i]);
            }
            i += 1;
        }
        assert forall|s: LookupInvocationState| s.spec_name() != value@ by {
            match s {
                LookupInvocationState::Prepared => assert(all@[0] == s),
                LookupInvocationState::Claimed => assert(all@[1] == s),
                LookupInvocationState::NeedsContext => assert(all@[2] == s),
                LookupInvocationState::Completed => assert(all@[3] == s),
                LookupInvocationState::Failed => assert(all@[4] == s),
                LookupInvocationState::Stopped => assert(all@[5] == s),
                LookupInvocationState::Unknown => assert(all@[6] == s),
            }
        }
        Err(CoreError::new(ErrorCode::InvalidProject, "The saved lookup invocation has an unknown state."))
    }
}

/// One invocation of a lookup chain, as its durable row records it.
#[derive(Debug)]
pub struct InvocationIdentity {
    pub run_id: String,
    pub ordinal: u8,
    pub packet_id: String,
    pub snapshot_id: String,
    pub project_id: String,
    pub operation_namespace: String,
    /// The story-source epoch the invocation's context was frozen at.
    pub source_epoch: i64,
    /// The disclosure-policy epoch the invocation's context was frozen at.
    pub policy_epoch: i64,
    pub allowance: LookupAllowance,
    pub state: LookupInvocationState,
    pub expected_sequence: u64,
}

impl Clone for InvocationIdentity {
    fn clone(&self) -> (r: Self)
        ensures
            r == *self,
    {
        InvocationIdentity {
            run_id: self.run_id.clone(),
            ordinal: self.ordinal,
            packet_id: self.packet_id.clone(),
            snapshot_id: self.snapshot_id.clone(),
            project_id: self.project_id.clone(),
            operation_namespace: self.operation_namespace.clone(),
            source_epoch: self.source_epoch,
            policy_epoch: self.policy_epoch,
            allowance: self.allowance.clone(),
            state: self.state,
            expected_sequence: self.expected_sequence,
        }
    }
}

// --------------------------------------------------------------------- claim

/// The epochs an invocation was frozen at, and the project's current ones.
#[derive(Debug, Clone, Copy)]
pub struct LookupEpochs {
    pub snapshot_source_epoch: i64,
    pub snapshot_policy_epoch: i64,
    pub source_epoch: i64,
    pub policy_epoch: i64,
}

pub open spec fn epochs_current(e: LookupEpochs) -> bool {
    e.snapshot_source_epoch == e.source_epoch && e.snapshot_policy_epoch == e.policy_epoch
}

/// What a provider worker's claim on a lookup invocation decides.
#[derive(Debug)]
pub enum LookupClaim {
    /// The context is current: claim the invocation at this ordinal.
    Proceed(u8),
    /// The frozen context is historical: commit this seal with its chain
    /// directive, and refuse the claim as `ContextChanged`.
    Stale(ChainStep),
}

pub open spec fn claim_request_error(info: ProjectInfo, owner: RunOwner, ordinal: Seq<char>) -> Option<ErrorCode> {
    if !owner_ids_valid(owner) {
        Some(ErrorCode::InvalidRequest)
    } else if !runtime_owner_ok(info, owner) {
        Some(ErrorCode::DiscussionProjectMismatch)
    } else {
        ordinal_error(ordinal)
    }
}

pub open spec fn lookup_run_error(owner: RunOwner, run: DiscussionRun) -> Option<ErrorCode> {
    if !run.owner.same(owner) {
        Some(ErrorCode::DiscussionProjectMismatch)
    } else if run.lookup is None {
        Some(ErrorCode::LookupNotEnabled)
    } else {
        None
    }
}

pub open spec fn lookup_stale_event_id(run_id: Seq<char>, ordinal: nat) -> Seq<char> {
    "lookup-stale-"@ + run_id + "-"@ + decimal_chars(ordinal)
}

pub open spec fn lookup_stale_message() -> Seq<char> {
    "The story or disclosure policy changed before this lookup started; the saved response was not dispatched."@
}

/// Decides a provider worker's claim on invocation `ordinal_text` of a
/// running lookup discussion. `current` is the read of the run; `epochs` the
/// read of the invocation's frozen epochs and the project's current ones.
pub fn claim_lookup_invocation(
    info: &ProjectInfo,
    owner: &RunOwner,
    ordinal_text: &str,
    current: Result<DiscussionRun, CoreError>,
    epochs: Result<LookupEpochs, CoreError>,
) -> (r: Result<LookupClaim, CoreError>)
    ensures
        match claim_request_error(*info, *owner, ordinal_text@) {
            Some(code) => fails_with(r, code),
            None => match current {
                Err(e) => r == Err::<LookupClaim, CoreError>(e),
                Ok(run) => match lookup_run_error(*owner, run) {
                    Some(code) => fails_with(r, code),
                    None => match started_error(run.status) {
                        Some(code) => fails_with(r, code),
                        None => match epochs {
                            Err(e) => r == Err::<LookupClaim, CoreError>(e),
                            Ok(ep) => if epochs_current(ep) {
                                r matches Ok(LookupClaim::Proceed(o)) && o == version_value(ordinal_text@)
                            } else {
                                match seal_error(run, DiscussionRunStatus::Failed, "context_stale"@,
                                    lookup_stale_event_id(run.id@, version_value(ordinal_text@)), lookup_stale_message()) {
                                    Some(code) => fails_with(r, code),
                                    None => r matches Ok(LookupClaim::Stale(s)) && s.stop_chain
                                        && (s.step matches RunStep::Changed(c) && sealed(c, run,
                                        DiscussionRunStatus::Failed, "context_stale"@,
                                        lookup_stale_event_id(run.id@, version_value(ordinal_text@)),
                                        lookup_stale_message())),
                                }
                            },
                        },
                    },
                },
            },
        },
{
    if let Err(e) = check_owner_ids(owner) {
        return Err(e);
    }
    if let Err(e) = validate_runtime_owner(info, owner) {
        return Err(e);
    }
    let ordinal = match parse_lookup_ordinal(ordinal_text) {
        Ok(o) => o,
        Err(e) => return Err(e),
    };
    let current = match current {
        Ok(run) => run,
        Err(e) => return Err(e),
    };
    if let Err(e) = validate_owner(&current, owner) {
        return Err(e);
    }
    if current.lookup.is_none() {
        return Err(CoreError::new(ErrorCode::LookupNotEnabled, "This discussion did not opt into bounded context lookup."));
    }
    if let Err(e) = ensure_run_started(current.status) {
        return Err(e);
    }
    let epochs = match epochs {
        Ok(ep) => ep,
        Err(e) => return Err(e),
    };
    if epochs.snapshot_source_epoch != epochs.source_epoch || epochs.snapshot_policy_epoch != epochs.policy_epoch {
        let mut event_id = concat("lookup-stale-", current.id.as_str());
        event_id.append("-");
        push_decimal(&mut event_id, ordinal as u64);
        proof {
            reveal_strlit("lookup-stale-");
            reveal_strlit("-");
        }
        return match seal_run(&current, DiscussionRunStatus::Failed, "context_stale", event_id.as_str(),
            "The story or disclosure policy changed before this lookup started; the saved response was not dispatched.") {
            Ok(change) => Ok(LookupClaim::Stale(ChainStep { step: RunStep::Changed(change), stop_chain: true })),
            Err(e) => Err(e),
        };
    }
    Ok(LookupClaim::Proceed(ordinal))
}

/// An `i64` read as a 128-bit unsigned value, as a cast wraps it.
pub open spec fn wide(v: int) -> int {
    if v >= 0 { v } else { v + 0x1_0000_0000_0000_0000_0000_0000_0000_0000 }
}

/// A recorded byte sum plus a new amount, where an impossible negative sum
/// counts as the largest 128-bit value.
pub open spec fn total_with(recorded: i64, added: int) -> int {
    (if recorded >= 0 { recorded as int } else { u128::MAX as int }) + added
}

pub open spec fn limits_readable(allowance: LookupAllowance) -> bool {
    integer_text_ok(allowance.total_input_bytes@) && integer_text_ok(allowance.total_output_bytes@)
}

pub open spec fn claim_check_error(
    allowance: LookupAllowance,
    serialized_len: u64,
    recorded_input: i64,
    recorded_output: i64,
    envelope_bytes: u64,
) -> Option<ErrorCode> {
    if !limits_readable(allowance) {
        Some(ErrorCode::InvalidLookupCounter)
    } else if total_with(recorded_input, serialized_len as int) > wide(integer_text_value(allowance.total_input_bytes@))
        || total_with(recorded_output, envelope_bytes as int) > wide(integer_text_value(allowance.total_output_bytes@)) {
        Some(ErrorCode::LookupAllowanceExceeded)
    } else {
        None
    }
}

/// The refusal a claim meets before anything is read: an invocation that
/// is no longer prepared was already claimed or settled.
pub open spec fn claim_refusal(identity: InvocationIdentity) -> Option<ErrorCode> {
    if identity.state != LookupInvocationState::Prepared { Some(ErrorCode::LookupInvocationAlreadyClaimed) } else { None }
}

/// The same invocation, now claimed.
pub open spec fn claimed(c: InvocationIdentity, identity: InvocationIdentity) -> bool {
    &&& c.run_id == identity.run_id
    &&& c.ordinal == identity.ordinal
    &&& c.packet_id == identity.packet_id
    &&& c.snapshot_id == identity.snapshot_id
    &&& c.project_id == identity.project_id
    &&& c.operation_namespace == identity.operation_namespace
    &&& c.source_epoch == identity.source_epoch
    &&& c.policy_epoch == identity.policy_epoch
    &&& c.allowance == identity.allowance
    &&& c.expected_sequence == identity.expected_sequence
    &&& c.state == LookupInvocationState::Claimed
}

/// Claims a prepared invocation when its frozen input plus a maximal
/// envelope still fit the chain's byte allowance. No invocation is claimed
/// twice: a paid call is never replayed. `serialized_len` is the read of the
/// packet's serialized input length, `recorded` the byte sums of the chain's
/// recorded results, `envelope_bytes` the largest envelope a call may return.
pub fn claim_invocation(
    identity: &InvocationIdentity,
    serialized_len: Result<u64, CoreError>,
    recorded: Result<(i64, i64), CoreError>,
    envelope_bytes: u64,
) -> (r: Result<InvocationIdentity, CoreError>)
    requires
        match (serialized_len, recorded) {
            (Ok(len), Ok((a, b))) => limits_readable(identity.allowance)
                ==> (a >= 0 || len == 0) && (b >= 0 || envelope_bytes == 0),
            _ => true,
        },
    ensures
        claim_refusal(*identity) matches Some(code) ==> fails_with(r, code),
        claim_refusal(*identity) is None ==> match serialized_len {
            Err(e) => r == Err::<InvocationIdentity, CoreError>(e),
            Ok(len) => match recorded {
                Err(e) => r == Err::<InvocationIdentity, CoreError>(e),
                Ok((a, b)) => match claim_check_error(identity.allowance, len, a, b, envelope_bytes) {
                    Some(code) => fails_with(r, code),
                    None => r matches Ok(c) && claimed(c, *identity),
                },
            },
        },
{
    if identity.state != LookupInvocationState::Prepared {
        return Err(CoreError::new(ErrorCode::LookupInvocationAlreadyClaimed, "This lookup invocation has already been claimed or settled; no paid replay is allowed."));
    }
    let len = match serialized_len {
        Ok(l) => l,
        Err(e) => return Err(e),
    };
    let (recorded_input, recorded_output) = match recorded {
        Ok(pair) => pair,
        Err(e) => return Err(e),
    };
    let input_limit = match parse_lookup_counter(identity.allowance.total_input_bytes.as_str()) {
        Ok(v) => v,
        Err(e) => return Err(e),
    };
    let output_limit = match parse_lookup_counter(identity.allowance.total_output_bytes.as_str()) {
        Ok(v) => v,
        Err(e) => return Err(e),
    };
    let input_total: u128 = if recorded_input >= 0 { recorded_input as u128 + len as u128 } else { u128::MAX };
    let output_total: u128 = if recorded_output >= 0 { recorded_output as u128 + envelope_bytes as u128 } else { u128::MAX };
    let input_cap: u128 = input_limit as u128;
    let output_cap: u128 = output_limit as u128;
    assert(input_cap == wide(input_limit as int)) by (bit_vector)
        requires
            input_cap == input_limit as u128;
    assert(output_cap == wide(output_limit as int)) by (bit_vector)
        requires
            output_cap == output_limit as u128;
    if input_total > input_cap || output_total > output_cap {
        return Err(CoreError::new(ErrorCode::LookupAllowanceExceeded, "The next lookup call cannot be claimed within its frozen byte allowance."));
    }
    let mut next = identity.clone();
    next.state = LookupInvocationState::Claimed;
    Ok(next)
}

// ---------------------------------------------------------------------- halt

/// A request to end a lookup chain early, with the author-facing reason.
#[derive(Debug)]
pub struct LookupHaltRequest {
    pub owner: RunOwner,
    pub reason: String,
}

pub open spec fn halt_request_error(info: ProjectInfo, request: LookupHaltRequest) -> Option<ErrorCode> {
    if !owner_ids_valid(request.owner) {
        Some(ErrorCode::InvalidRequest)
    } else if !runtime_owner_ok(info, request.owner) {
        Some(ErrorCode::DiscussionProjectMismatch)
    } else if is_blank(request.reason@) || byte_len(request.reason@) > MAX_ERROR_BYTES {
        Some(ErrorCode::InvalidRequest)
    } else {
        None
    }
}

pub open spec fn halt_event_id(sequence: nat) -> Seq<char> {
    "lookup-halt-"@ + decimal_chars(sequence)
}

/// Halts an active lookup discussion as interrupted with the given reason;
/// a terminal run is returned unchanged. A changed run also stops its chain.
pub fn halt_lookup(
    info: &ProjectInfo,
    request: &LookupHaltRequest,
    current: Result<DiscussionRun, CoreError>,
) -> (r: Result<ChainStep, CoreError>)
    ensures
        match halt_request_error(*info, *request) {
            Some(code) => fails_with(r, code),
            None => match current {
                Err(e) => r == Err::<ChainStep, CoreError>(e),
                Ok(run) => match lookup_run_error(request.owner, run) {
                    Some(code) => fails_with(r, code),
                    None => if run.status.spec_terminal() {
                        r matches Ok(s) && !s.stop_chain && s.step == RunStep::Replayed(run)
                    } else {
                        match seal_error(run, DiscussionRunStatus::Interrupted, "lookup_halted"@,
                            halt_event_id(run.sequence as nat), request.reason@) {
                            Some(code) => fails_with(r, code),
                            None => r matches Ok(s) && s.stop_chain && (s.step matches RunStep::Changed(c) && sealed(c, run,
                                DiscussionRunStatus::Interrupted, "lookup_halted"@,
                                halt_event_id(run.sequence as nat), request.reason@)),
                        }
                    },
                },
            },
        },
{
    if let Err(e) = check_owner_ids(&request.owner) {
        return Err(e);
    }
    if let Err(e) = validate_runtime_owner(info, &request.owner) {
        return Err(e);
    }
    if text_is_blank(request.reason.as_str()) || byte_length(request.reason.as_str()) > MAX_ERROR_BYTES {
        return Err(CoreError::new(ErrorCode::InvalidRequest, "A lookup halt reason must be nonblank and at most 4 KiB."));
    }
    let current = match current {
        Ok(run) => run,
        Err(e) => return Err(e),
    };
    if let Err(e) = validate_owner(&current, &request.owner) {
        return Err(e);
    }
    if current.lookup.is_none() {
        return Err(CoreError::new(ErrorCode::LookupNotEnabled, "This discussion did not opt into bounded context lookup."));
    }
    if current.status.terminal() {
        return Ok(ChainStep { step: RunStep::Replayed(current), stop_chain: false });
    }
    let mut event_id = "lookup-halt-".to_owned();
    push_decimal(&mut event_id, current.sequence);
    match seal_run(&current, DiscussionRunStatus::Interrupted, "lookup_halted", event_id.as_str(), request.reason.as_str()) {
        Ok(change) => Ok(ChainStep { step: RunStep::Changed(change), stop_chain: true }),
        Err(e) => Err(e),
    }
}


// ------------------------------------------------------------------- targets

/// The checks a lookup message passes before anything is read: well-formed
/// owner IDs, the actor's own project, and an ordinal of 0, 1 or 2. Returns
/// the ordinal whose rows are then read.
pub fn check_lookup_target(info: &ProjectInfo, owner: &RunOwner, ordinal_text: &str) -> (r: Result<u8, CoreError>)
    ensures
        match claim_request_error(*info, *owner, ordinal_text@) {
            Some(code) => fails_with(r, code),
            None => r matches Ok(o) && o == version_value(ordinal_text@),
        },
{
    if let Err(e) = check_owner_ids(owner) {
        return Err(e);
    }
    if let Err(e) = validate_runtime_owner(info, owner) {
        return Err(e);
    }
    parse_lookup_ordinal(ordinal_text)
}

// ------------------------------------------------------------------- advance

/// A request to prepare the next invocation after a needs-context reply.
#[derive(Debug)]
pub struct LookupAdvanceRequest {
    pub owner: RunOwner,
    pub completed_ordinal: String,
}

/// What a needs-context reply leads to.
#[derive(Debug)]
pub enum LookupAdvanceStep {
    /// The chain is over: stop it and commit this seal.
    Finished(RunChange),
    /// Execute the reads that invocation `completed` asked for and prepare
    /// invocation `next` from them.
    Expand { completed: u8, next: u8 },
}

/// Expansion is refused once the allowance's additional invocations are used
/// up, and never reaches a fourth invocation.
pub open spec fn expansion_exhausted(allowance: LookupAllowance, completed: nat) -> bool {
    let cap: nat = if allowance.max_additional_invocations == 255 { 255 } else {
        (allowance.max_additional_invocations + 1) as nat
    };
    completed >= cap || completed >= 2
}

pub open spec fn limit_event_id(completed: nat) -> Seq<char> {
    "lookup-limit-"@ + decimal_chars(completed)
}

pub open spec fn limit_message() -> Seq<char> {
    "This lookup request reached its bounded context-expansion limit."@
}

pub open spec fn advance_stale_event_id(completed: nat) -> Seq<char> {
    "lookup-stale-"@ + decimal_chars(completed)
}

pub open spec fn advance_stale_message() -> Seq<char> {
    "The story changed before the next lookup request; no new provider call was made."@
}

/// Decides what follows a needs-context reply: finish the chain at its
/// limit or on a changed story, or expand it by one invocation. `current` is
/// the read of the run, `identity` the read of the completed invocation, and
/// `source_epoch` the project's current story-source epoch.
pub fn advance_lookup(
    info: &ProjectInfo,
    request: &LookupAdvanceRequest,
    current: Result<DiscussionRun, CoreError>,
    identity: Result<InvocationIdentity, CoreError>,
    source_epoch: i64,
) -> (r: Result<LookupAdvanceStep, CoreError>)
    ensures
        match claim_request_error(*info, request.owner, request.completed_ordinal@) {
            Some(code) => fails_with(r, code),
            None => match current {
                Err(e) => r == Err::<LookupAdvanceStep, CoreError>(e),
                Ok(run) => match lookup_run_error(request.owner, run) {
                    Some(code) => fails_with(r, code),
                    None => if run.status != DiscussionRunStatus::Running {
                        fails_with(r, ErrorCode::RunSealed)
                    } else {
                        match identity {
                            Err(e) => r == Err::<LookupAdvanceStep, CoreError>(e),
                            Ok(id) => {
                                let completed = version_value(request.completed_ordinal@);
                                if id.state != LookupInvocationState::NeedsContext {
                                    fails_with(r, ErrorCode::LookupExpansionUnavailable)
                                } else if expansion_exhausted(run.lookup->0, completed) {
                                    match seal_error(run, DiscussionRunStatus::Failed, "lookup_limit"@,
                                        limit_event_id(completed), limit_message()) {
                                        Some(code) => fails_with(r, code),
                                        None => r matches Ok(LookupAdvanceStep::Finished(c)) && sealed(c, run,
                                            DiscussionRunStatus::Failed, "lookup_limit"@, limit_event_id(completed),
                                            limit_message()),
                                    }
                                } else if id.source_epoch != source_epoch {
                                    match seal_error(run, DiscussionRunStatus::Failed, "context_stale"@,
                                        advance_stale_event_id(completed), advance_stale_message()) {
                                        Some(code) => fails_with(r, code),
                                        None => r matches Ok(LookupAdvanceStep::Finished(c)) && sealed(c, run,
                                            DiscussionRunStatus::Failed, "context_stale"@,
                                            advance_stale_event_id(completed), advance_stale_message()),
                                    }
                                } else {
                                    r matches Ok(LookupAdvanceStep::Expand { completed: c, next: n })
                                        && c == completed && n == completed + 1
                                }
                            },
                        }
                    },
                },
            },
        },
{
    let completed = match check_lookup_target(info, &request.owner, request.completed_ordinal.as_str()) {
        Ok(o) => o,
        Err(e) => return Err(e),
    };
    let current = match current {
        Ok(run) => run,
        Err(e) => return Err(e),
    };
    if let Err(e) = validate_owner(&current, &request.owner) {
        return Err(e);
    }
    let max_additional = match &current.lookup {
        Some(allowance) => allowance.max_additional_invocations,
        None => return Err(CoreError::new(ErrorCode::LookupNotEnabled, "This discussion did not opt into bounded context lookup.")),
    };
    if current.status != DiscussionRunStatus::Running {
        return Err(CoreError::new(ErrorCode::RunSealed, "Only a running lookup discussion can be expanded."));
    }
    let identity = match identity {
        Ok(id) => id,
        Err(e) => return Err(e),
    };
    if identity.state != LookupInvocationState::NeedsContext {
        return Err(CoreError::new(ErrorCode::LookupExpansionUnavailable, "Only a needs-context invocation can be expanded."));
    }
    let cap: u8 = if max_additional == 255 { 255 } else { max_additional + 1 };
    if completed >= cap || completed >= 2 {
        let mut event_id = "lookup-limit-".to_owned();
        push_decimal(&mut event_id, completed as u64);
        return match seal_run(&current, DiscussionRunStatus::Failed, "lookup_limit", event_id.as_str(),
            "This lookup request reached its bounded context-expansion limit.") {
            Ok(change) => Ok(LookupAdvanceStep::Finished(change)),
            Err(e) => Err(e),
        };
    }
    if identity.source_epoch != source_epoch {
        let mut event_id = "lookup-stale-".to_owned();
        push_decimal(&mut event_id, completed as u64);
        return match seal_run(&current, DiscussionRunStatus::Failed, "context_stale", event_id.as_str(),
            "The story changed before the next lookup request; no new provider call was made.") {
            Ok(change) => Ok(LookupAdvanceStep::Finished(change)),
            Err(e) => Err(e),
        };
    }
    Ok(LookupAdvanceStep::Expand { completed, next: completed + 1 })
}


// -------------------------------------------------------------------- settle

/// The checks a lookup report passes before anything is read. Returns the
/// ordinal whose rows are then read.
pub fn check_settle_target(info: &ProjectInfo, request: &LookupInvocationReport) -> (r: Result<u8, CoreError>)
    ensures
        match report_shape_error(*request) {
            Some(code) => fails_with(r, code),
            None => if !runtime_owner_ok(*info, request.owner) {
                fails_with(r, ErrorCode::DiscussionProjectMismatch)
            } else {
                r matches Ok(o) && o == version_value(request.ordinal@)
            },
        },
{
    if let Err(e) = validate_lookup_report_shape(request) {
        return Err(e);
    }
    if let Err(e) = validate_runtime_owner(info, &request.owner) {
        return Err(e);
    }
    parse_lookup_ordinal(request.ordinal.as_str())
}

/// Where a lookup report stands before its invocation is read.
#[derive(Debug)]
pub enum SettleLookupStart {
    /// The same report was already recorded: the run is returned unchanged.
    Replayed(DiscussionRun),
    /// Settle the invocation at this ordinal.
    Proceed(u8),
}

/// Decides whether a provider worker's lookup report is new, a replay of the
/// recorded result, or refused. `current` is the read of the run and `saved`
/// the read of the result already recorded for the invocation, if any.
pub fn settle_lookup_invocation(
    info: &ProjectInfo,
    request: &LookupInvocationReport,
    current: Result<DiscussionRun, CoreError>,
    saved: Result<Option<LookupResultRecord>, CoreError>,
) -> (r: Result<SettleLookupStart, CoreError>)
    ensures
        match report_shape_error(*request) {
            Some(code) => fails_with(r, code),
            None => if !runtime_owner_ok(*info, request.owner) {
                fails_with(r, ErrorCode::DiscussionProjectMismatch)
            } else {
                match current {
                    Err(e) => r == Err::<SettleLookupStart, CoreError>(e),
                    Ok(run) => match lookup_run_error(request.owner, run) {
                        Some(code) => fails_with(r, code),
                        None => match saved {
                            Err(e) => r == Err::<SettleLookupStart, CoreError>(e),
                            Ok(Some(record)) => if result_matches(record, *request) {
                                r == Ok::<SettleLookupStart, CoreError>(SettleLookupStart::Replayed(run))
                            } else {
                                fails_with(r, ErrorCode::LookupResultConflict)
                            },
                            Ok(None) => if run.status == DiscussionRunStatus::Running
                                || run.status == DiscussionRunStatus::Stopping {
                                r matches Ok(SettleLookupStart::Proceed(o)) && o == version_value(request.ordinal@)
                            } else {
                                fails_with(r, ErrorCode::RunNotStarted)
                            },
                        },
                    },
                }
            },
        },
{
    let ordinal = match check_settle_target(info, request) {
        Ok(o) => o,
        Err(e) => return Err(e),
    };
    let current = match current {
        Ok(run) => run,
        Err(e) => return Err(e),
    };
    if let Err(e) = validate_owner(&current, &request.owner) {
        return Err(e);
    }
    if current.lookup.is_none() {
        return Err(CoreError::new(ErrorCode::LookupNotEnabled, "This discussion did not opt into bounded context lookup."));
    }
    let saved = match saved {
        Ok(s) => s,
        Err(e) => return Err(e),
    };
    if let Some(record) = saved {
        if lookup_result_matches(&record, request) {
            return Ok(SettleLookupStart::Replayed(current));
        }
        return Err(CoreError::new(ErrorCode::LookupResultConflict, "A different immutable result is already recorded for this invocation."));
    }
    if current.status != DiscussionRunStatus::Running && current.status != DiscussionRunStatus::Stopping {
        return Err(CoreError::new(ErrorCode::RunNotStarted, "Claim the lookup invocation before settling its provider result."));
    }
    Ok(SettleLookupStart::Proceed(ordinal))
}

/// A result is accepted only for a claimed invocation whose packet binding
/// is the one the report names.
pub fn check_lookup_settlement(
    identity: &InvocationIdentity,
    packet_binding: &Option<ProviderBinding>,
    request: &LookupInvocationReport,
) -> (r: Result<(), CoreError>)
    ensures
        identity.state != LookupInvocationState::Claimed ==> fails_with(r, ErrorCode::LookupInvocationNotClaimed),
        identity.state == LookupInvocationState::Claimed && !same_opt_binding(*packet_binding, request.binding)
            ==> fails_with(r, ErrorCode::ProviderBindingMismatch),
        identity.state == LookupInvocationState::Claimed && same_opt_binding(*packet_binding, request.binding)
            ==> r is Ok,
{
    if identity.state != LookupInvocationState::Claimed {
        return Err(CoreError::new(ErrorCode::LookupInvocationNotClaimed, "A provider result requires a claimed lookup invocation."));
    }
    if !same_opt_binding_exec(packet_binding, &request.binding) {
        return Err(CoreError::new(ErrorCode::ProviderBindingMismatch, "The lookup result does not match the immutable packet binding."));
    }
    Ok(())
}

/// A recorded byte sum plus a new amount, saturating, where an impossible
/// negative sum counts as the largest 128-bit value.
pub open spec fn capped_total(recorded: i64, added: int) -> int {
    if recorded >= 0 { recorded + added } else { u128::MAX as int }
}

pub open spec fn counter_ok(s: Seq<char>) -> bool {
    canonical_decimal(encode_utf8(s)) && decimal_value(encode_utf8(s)) <= u64::MAX
}

pub open spec fn counter_value(s: Seq<char>) -> nat {
    decimal_value(encode_utf8(s))
}

/// The output cap of a packet binding: the application cap without one.
pub open spec fn binding_output_cap(binding: Option<ProviderBinding>) -> Option<nat> {
    match binding {
        None => Some(MAX_OUTPUT_BYTES as nat),
        Some(b) => if b.validation_error is Some { None } else { Some(b.output_limit as nat) },
    }
}

pub open spec fn provider_bytes_error(
    allowance: LookupAllowance,
    serialized_len: u64,
    packet_binding: Option<ProviderBinding>,
    recorded_input: i64,
    recorded_output: i64,
    request: LookupInvocationReport,
) -> Option<ErrorCode> {
    let confirmed = counter_value(request.confirmed_stdin_bytes@);
    let text_bytes = byte_len(request.assistant_text@);
    if confirmed > serialized_len || (request.status == ProviderOutcomeStatus::Completed && confirmed != serialized_len) {
        Some(ErrorCode::ProviderInputMismatch)
    } else if binding_output_cap(packet_binding) is None {
        Some(ErrorCode::InvalidProviderBinding)
    } else if text_bytes > binding_output_cap(packet_binding)->0 {
        Some(ErrorCode::OutputTooLarge)
    } else if !counter_ok(allowance.total_input_bytes@) || !counter_ok(allowance.total_output_bytes@) {
        Some(ErrorCode::InvalidRequest)
    } else if capped_total(recorded_input, confirmed as int) > counter_value(allowance.total_input_bytes@)
        || capped_total(recorded_output, text_bytes as int) > counter_value(allowance.total_output_bytes@) {
        Some(ErrorCode::LookupAllowanceExceeded)
    } else {
        None
    }
}

/// A lookup call consumed exactly its frozen input (all of it when it
/// completed), stayed within its binding's output cap, and keeps the chain
/// within its byte allowance. `serialized_len` is the length of the packet's
/// serialized input and `recorded` the byte sums of the chain's recorded
/// results, each as read.
pub fn validate_lookup_provider_bytes(
    allowance: &LookupAllowance,
    serialized_len: Result<u64, CoreError>,
    packet_binding: &Option<ProviderBinding>,
    recorded: Result<(i64, i64), CoreError>,
    request: &LookupInvocationReport,
) -> (r: Result<(), CoreError>)
    ensures
        !counter_ok(request.confirmed_stdin_bytes@) ==> fails_with(r, ErrorCode::InvalidRequest),
        counter_ok(request.confirmed_stdin_bytes@) ==> match serialized_len {
            Err(e) => r == Err::<(), CoreError>(e),
            Ok(len) => {
                let early = provider_bytes_error(*allowance, len, *packet_binding, 0, 0, *request);
                if early == Some(ErrorCode::ProviderInputMismatch) || early == Some(ErrorCode::InvalidProviderBinding)
                    || early == Some(ErrorCode::OutputTooLarge) {
                    fails_with(r, early->0)
                } else {
                    match recorded {
                        Err(e) => r == Err::<(), CoreError>(e),
                        Ok((a, b)) => match provider_bytes_error(*allowance, len, *packet_binding, a, b, *request) {
                            Some(code) => fails_with(r, code),
                            None => r is Ok,
                        },
                    }
                }
            },
        },
{
    let confirmed = match parse_decimal_u64(request.confirmed_stdin_bytes.as_str()) {
        Ok(v) => v,
        Err(e) => return Err(e),
    };
    let len = match serialized_len {
        Ok(l) => l,
        Err(e) => return Err(e),
    };
    if confirmed > len || (request.status == ProviderOutcomeStatus::Completed && confirmed != len) {
        return Err(CoreError::new(ErrorCode::ProviderInputMismatch, "The lookup provider did not consume the exact frozen packet input."));
    }
    let output_cap: usize = match packet_binding {
        None => MAX_OUTPUT_BYTES,
        Some(b) => match &b.validation_error {
            Some(detail) => return Err(CoreError::new(ErrorCode::InvalidProviderBinding, detail.as_str())),
            None => b.output_limit,
        },
    };
    let text_bytes = byte_length(request.assistant_text.as_str());
    if text_bytes > output_cap {
        return Err(CoreError::new(ErrorCode::OutputTooLarge, "The lookup provider response exceeds the application output cap."));
    }
    let (recorded_input, recorded_output) = match recorded {
        Ok(pair) => pair,
        Err(e) => return Err(e),
    };
    let total_input: u128 = if recorded_input >= 0 { recorded_input as u128 + confirmed as u128 } else { u128::MAX };
    let total_output: u128 = if recorded_output >= 0 { recorded_output as u128 + text_bytes as u128 } else { u128::MAX };
    let input_limit = match parse_decimal_u64(allowance.total_input_bytes.as_str()) {
        Ok(v) => v,
        Err(e) => return Err(e),
    };
    let output_limit = match parse_decimal_u64(allowance.total_output_bytes.as_str()) {
        Ok(v) => v,
        Err(e) => return Err(e),
    };
    if total_input > input_limit as u128 || total_output > output_limit as u128 {
        return Err(CoreError::new(ErrorCode::LookupAllowanceExceeded, "The lookup invocation would exceed its application byte allowance."));
    }
    Ok(())
}


pub open spec fn lookup_discussion_error(run: DiscussionRun, event_id: Seq<char>, text: Seq<char>) -> Option<ErrorCode> {
    if run.status != DiscussionRunStatus::Running {
        Some(ErrorCode::RunSealed)
    } else if finish_shape_error(run.owner, event_id, text) is Some {
        finish_shape_error(run.owner, event_id, text)
    } else if run.sequence >= MAX_COUNTER {
        Some(ErrorCode::InvalidRequest)
    } else {
        None
    }
}

/// The run completes with the discussion text of the final envelope, one
/// terminal event and one assistant message tied to the invocation's packet.
pub open spec fn lookup_completed(c: RunChange, run: DiscussionRun, packet_id: Seq<char>, event_id: Seq<char>, text: Seq<char>) -> bool {
    &&& same_identity(c.run, run)
    &&& c.run.status == DiscussionRunStatus::Completed
    &&& c.run.dispatch_state == run.dispatch_state
    &&& c.run.stop_reason is None
    &&& c.run.sequence == run.sequence + 1
    &&& c.run.output_text@ == text
    &&& c.event matches Some(ev) && ev.kind == EventKind::Terminal && ev.sequence == run.sequence + 1
        && ev.event_id@ == event_id && ev.chunk@ == text
    &&& c.message matches Some(m) && m.content@ == text && opt_view(m.packet_id) == Some(packet_id)
}

/// Completes a running lookup discussion with the text of its final envelope.
pub fn seal_lookup_discussion(run: &DiscussionRun, packet_id: &str, event_id: &str, text: &str) -> (r: Result<RunChange, CoreError>)
    ensures
        match lookup_discussion_error(*run, event_id@, text@) {
            Some(code) => fails_with(r, code),
            None => r matches Ok(c) && lookup_completed(c, *run, packet_id@, event_id@, text@),
        },
{
    if run.status != DiscussionRunStatus::Running {
        return Err(CoreError::new(ErrorCode::RunSealed, "A lookup discussion can finish only while running."));
    }
    if let Err(e) = validate_finish_request(&run.owner, event_id, text) {
        return Err(e);
    }
    if run.sequence >= MAX_COUNTER {
        return Err(CoreError::new(ErrorCode::InvalidRequest, "The output sequence is exhausted."));
    }
    let next = run.sequence + 1;
    let mut completed = with_progress(run, DiscussionRunStatus::Completed, next, text.to_owned());
    completed.stop_reason = None;
    Ok(RunChange {
        run: completed,
        event: Some(OutputEvent { sequence: next, event_id: event_id.to_owned(), kind: EventKind::Terminal, chunk: text.to_owned() }),
        message: Some(AssistantMessage { content: text.to_owned(), packet_id: Some(packet_id.to_owned()) }),
    })
}

/// What the envelope parser and the packet's lookup capability made of a
/// completed call's reply.
#[derive(Debug)]
pub enum EnvelopeVerdict {
    /// A well-formed request for more context.
    NeedsContext,
    /// A well-formed final answer, with its discussion text.
    Discussion(String),
    /// The reply was refused, with the refusal's detail.
    Refused(String),
}

/// The envelope kind a call produced: only a completed call is parsed.
pub open spec fn parsed_kind(status: ProviderOutcomeStatus, verdict: Option<EnvelopeVerdict>) -> Option<ResponseKind> {
    if status != ProviderOutcomeStatus::Completed {
        None
    } else {
        match verdict {
            Some(EnvelopeVerdict::NeedsContext) => Some(ResponseKind::NeedsContext),
            Some(EnvelopeVerdict::Discussion(_)) => Some(ResponseKind::Discussion),
            _ => None,
        }
    }
}

/// The error stored with a result: the provider's own, else the refusal.
pub open spec fn report_error(request: LookupInvocationReport, verdict: Option<EnvelopeVerdict>) -> Option<Seq<char>> {
    match request.error {
        Some(e) => Some(e@),
        None => if request.status == ProviderOutcomeStatus::Completed {
            match verdict {
                Some(EnvelopeVerdict::Refused(d)) => Some(d@),
                _ => None,
            }
        } else {
            None
        },
    }
}

/// A refused completed reply is stored as a failed call.
pub open spec fn stored_status(status: ProviderOutcomeStatus, verdict: Option<EnvelopeVerdict>) -> ProviderOutcomeStatus {
    if parsed_kind(status, verdict) is None && status == ProviderOutcomeStatus::Completed {
        ProviderOutcomeStatus::Failed
    } else {
        status
    }
}

/// How a lookup call's settlement ends the chain.
pub open spec fn stop_seal_status(cleanup: ProviderCleanup) -> DiscussionRunStatus {
    if cleanup == ProviderCleanup::Unresolved { DiscussionRunStatus::Interrupted } else { DiscussionRunStatus::Stopped }
}

pub open spec fn stop_seal_reason(cleanup: ProviderCleanup) -> Seq<char> {
    if cleanup == ProviderCleanup::Unresolved { "stop_cleanup_unresolved"@ } else { "author_stopped"@ }
}

pub open spec fn stop_seal_message(cleanup: ProviderCleanup) -> Seq<char> {
    if cleanup == ProviderCleanup::Unresolved { stop_unresolved_text() } else { stop_settled_text() }
}

pub open spec fn failure_status(status: ProviderOutcomeStatus, cleanup: ProviderCleanup) -> DiscussionRunStatus {
    if cleanup == ProviderCleanup::Unresolved {
        DiscussionRunStatus::Interrupted
    } else if status == ProviderOutcomeStatus::Stopped {
        DiscussionRunStatus::Stopped
    } else {
        DiscussionRunStatus::Failed
    }
}

/// The message a failed chain is sealed with: the stored error when there is
/// a nonempty one, else the stop reason.
pub open spec fn failure_message(request: LookupInvocationReport, verdict: Option<EnvelopeVerdict>) -> Seq<char> {
    match report_error(request, verdict) {
        Some(e) => if e.len() > 0 { e } else { failure_reason_name(request.status, request.cleanup) },
        None => failure_reason_name(request.status, request.cleanup),
    }
}

/// The writes a settled lookup call commits.
#[derive(Debug)]
pub struct LookupSettlement {
    /// The outcome stored with the result.
    pub stored_status: ProviderOutcomeStatus,
    /// The error stored with the result.
    pub stored_error: Option<String>,
    /// The invocation's state once the result is stored.
    pub state: LookupInvocationState,
    /// Whether every unsettled invocation of the chain is stopped.
    pub stop_chain: bool,
    /// The run's next state: sealed, completed, or unchanged while the chain
    /// waits to expand.
    pub step: RunStep,
}

/// The settlement's effect on the run, as `settle_lookup_outcome` decides it.
pub open spec fn settlement_step_ok(
    s: LookupSettlement,
    run: DiscussionRun,
    packet_id: Seq<char>,
    request: LookupInvocationReport,
    verdict: Option<EnvelopeVerdict>,
) -> bool {
    match parsed_kind(request.status, verdict) {
        Some(kind) => if run.status == DiscussionRunStatus::Stopping {
            s.stop_chain && (s.step matches RunStep::Changed(c) && sealed(c, run, stop_seal_status(request.cleanup),
                stop_seal_reason(request.cleanup), request.event_id@, stop_seal_message(request.cleanup)))
        } else if kind == ResponseKind::Discussion {
            !s.stop_chain && (s.step matches RunStep::Changed(c) && (verdict matches Some(EnvelopeVerdict::Discussion(text))
                && lookup_completed(c, run, packet_id, request.event_id@, text@)))
        } else {
            !s.stop_chain && s.step == RunStep::Replayed(run)
        },
        None => s.stop_chain && (s.step matches RunStep::Changed(c) && sealed(c, run,
            failure_status(request.status, request.cleanup), failure_reason_name(request.status, request.cleanup),
            request.event_id@, failure_message(request, verdict))),
    }
}

/// The error, if any, the settlement's effect on the run meets.
pub open spec fn settlement_step_error(
    run: DiscussionRun,
    request: LookupInvocationReport,
    verdict: Option<EnvelopeVerdict>,
) -> Option<ErrorCode> {
    match parsed_kind(request.status, verdict) {
        Some(kind) => if run.status == DiscussionRunStatus::Stopping {
            seal_error(run, stop_seal_status(request.cleanup), stop_seal_reason(request.cleanup), request.event_id@,
                stop_seal_message(request.cleanup))
        } else if kind == ResponseKind::Discussion {
            match verdict {
                Some(EnvelopeVerdict::Discussion(text)) => lookup_discussion_error(run, request.event_id@, text@),
                _ => None,
            }
        } else {
            None
        },
        None => seal_error(run, failure_status(request.status, request.cleanup),
            failure_reason_name(request.status, request.cleanup), request.event_id@, failure_message(request, verdict)),
    }
}

/// Settles a validated report on its claimed invocation: what is stored for
/// the call, the invocation's next state, and what happens to the run. A
/// stopping run is sealed as stopped (or interrupted when cleanup is
/// unresolved) once its call returned a usable envelope; a final envelope
/// completes the run; a needs-context envelope leaves it running; anything
/// else seals the run with the call's failure. `verdict` is what the envelope
/// parser made of a completed call's reply; `packet_id` is the invocation's
/// packet.
pub fn settle_lookup_outcome(
    run: &DiscussionRun,
    packet_id: &str,
    request: &LookupInvocationReport,
    verdict: Option<EnvelopeVerdict>,
) -> (r: Result<LookupSettlement, CoreError>)
    requires
        request.status == ProviderOutcomeStatus::Completed ==> verdict is Some,
    ensures
        !integer_text_ok(request.confirmed_stdin_bytes@) ==> fails_with(r, ErrorCode::InvalidLookupCounter),
        integer_text_ok(request.confirmed_stdin_bytes@) ==> match settlement_step_error(*run, *request, verdict) {
            Some(code) => fails_with(r, code),
            None => r matches Ok(s) && s.stored_status == stored_status(request.status, verdict)
                && opt_view(s.stored_error) == report_error(*request, verdict)
                && s.state == spec_outcome_state(parsed_kind(request.status, verdict), request.status, request.cleanup)
                && settlement_step_ok(s, *run, packet_id@, *request, verdict),
        },
{
    if let Err(e) = parse_lookup_counter(request.confirmed_stdin_bytes.as_str()) {
        return Err(e);
    }
    let completed = request.status == ProviderOutcomeStatus::Completed;
    let (kind, response_error): (Option<ResponseKind>, Option<String>) = if completed {
        match &verdict {
            Some(EnvelopeVerdict::NeedsContext) => (Some(ResponseKind::NeedsContext), None),
            Some(EnvelopeVerdict::Discussion(_)) => (Some(ResponseKind::Discussion), None),
            Some(EnvelopeVerdict::Refused(detail)) => (None, Some(detail.clone())),
            None => (None, None),
        }
    } else {
        (None, None)
    };
    let stored_error = match &request.error {
        Some(e) => Some(e.clone()),
        None => response_error,
    };
    let stored = if kind.is_none() && completed { ProviderOutcomeStatus::Failed } else { request.status };
    let state = outcome_state(kind, request.status, request.cleanup);
    match kind {
        Some(k) => {
            if run.status == DiscussionRunStatus::Stopping {
                let unresolved = request.cleanup == ProviderCleanup::Unresolved;
                let status = if unresolved { DiscussionRunStatus::Interrupted } else { DiscussionRunStatus::Stopped };
                let reason = if unresolved { "stop_cleanup_unresolved" } else { "author_stopped" };
                let message = if unresolved { stop_unresolved_message() } else { stop_settled_message() };
                match seal_run(run, status, reason, request.event_id.as_str(), message) {
                    Ok(change) => Ok(LookupSettlement { stored_status: stored, stored_error, state, stop_chain: true, step: RunStep::Changed(change) }),
                    Err(e) => Err(e),
                }
            } else if k == ResponseKind::Discussion {
                let text = match &verdict {
                    Some(EnvelopeVerdict::Discussion(t)) => t,
                    _ => {
                        assert(false);
                        return Err(CoreError::new(ErrorCode::InvalidRequest, "The lookup response has no discussion text."));
                    },
                };
                match seal_lookup_discussion(run, packet_id, request.event_id.as_str(), text.as_str()) {
                    Ok(change) => Ok(LookupSettlement { stored_status: stored, stored_error, state, stop_chain: false, step: RunStep::Changed(change) }),
                    Err(e) => Err(e),
                }
            } else {
                Ok(LookupSettlement { stored_status: stored, stored_error, state, stop_chain: false, step: RunStep::Replayed(run.clone()) })
            }
        },
        None => {
            let reason = lookup_failure_reason(request.status, request.cleanup);
            let message: &str = match &stored_error {
                Some(e) => if e.as_str().is_empty() { reason } else { e.as_str() },
                None => reason,
            };
            let status = if request.cleanup == ProviderCleanup::Unresolved {
                DiscussionRunStatus::Interrupted
            } else if request.status == ProviderOutcomeStatus::Stopped {
                DiscussionRunStatus::Stopped
            } else {
                DiscussionRunStatus::Failed
            };
            let sealed_change = seal_run(run, status, reason, request.event_id.as_str(), message);
            match sealed_change {
                Ok(change) => Ok(LookupSettlement { stored_status: stored, stored_error, state, stop_chain: true, step: RunStep::Changed(change) }),
                Err(e) => Err(e),
            }
        },
    }
}


// ---------------------------------------------------------------------- laws

/// No paid call is replayed: once an invocation is claimed, settled or
/// stopped it is never prepared again, so a second claim is refused; and a
/// settled or stopped invocation is never claimed.
pub proof fn law_no_paid_replay(
    c: InvocationIdentity,
    identity: InvocationIdentity,
    parsed: Option<ResponseKind>,
    status: ProviderOutcomeStatus,
    cleanup: ProviderCleanup,
    state: LookupInvocationState,
)
    ensures
        claimed(c, identity) ==> c.state != LookupInvocationState::Prepared,
        spec_outcome_state(parsed, status, cleanup) != LookupInvocationState::Prepared,
        spec_outcome_state(parsed, status, cleanup) != LookupInvocationState::Claimed,
        spec_chain_stopped(state) != LookupInvocationState::Prepared,
        spec_chain_stopped(state) != LookupInvocationState::Claimed,
{
}

/// A second claim is refused without a paid replay: the invocation a claim
/// stores is no longer prepared, so claiming it again meets
/// `LookupInvocationAlreadyClaimed` before anything is read or written.
pub proof fn law_second_claim_refused(identity: InvocationIdentity, c: InvocationIdentity)
    requires
        claimed(c, identity),
    ensures
        claim_refusal(c) == Some(ErrorCode::LookupInvocationAlreadyClaimed),
{
}

/// Stopping a chain twice changes nothing more than stopping it once.
pub proof fn law_chain_stop_is_idempotent(state: LookupInvocationState)
    ensures
        spec_chain_stopped(spec_chain_stopped(state)) == spec_chain_stopped(state),
{
}

/// A chain never grows past three invocations, nor past its allowance: an
/// expansion that is not refused prepares an ordinal below the chain's hard
/// limit, and follows at most as many completed invocations as the allowance
/// grants additional ones.
pub proof fn law_expansion_is_bounded(allowance: LookupAllowance, completed: nat)
    requires
        !expansion_exhausted(allowance, completed),
    ensures
        completed + 1 < MAX_LOOKUP_INVOCATIONS,
        completed <= allowance.max_additional_invocations,
{
}

/// Halting is final: the run a halt seals is terminal and still a lookup
/// discussion of the same owner, so halting it again returns it unchanged.
pub proof fn law_halt_is_final(request: LookupHaltRequest, run: DiscussionRun, c: RunChange)
    requires
        lookup_run_error(request.owner, run) is None,
        sealed(c, run, DiscussionRunStatus::Interrupted, "lookup_halted"@, halt_event_id(run.sequence as nat),
            request.reason@),
    ensures
        lookup_run_error(request.owner, c.run) is None,
        c.run.status.spec_terminal(),
{
}

/// The result row a settlement stores for a report.
pub open spec fn records_settlement(saved: LookupResultRecord, request: LookupInvocationReport, s: LookupSettlement) -> bool {
    &&& saved.event_id@ == request.event_id@
    &&& saved.assistant_text@ == request.assistant_text@
    &&& saved.outcome@ == s.stored_status.spec_name()
    &&& saved.confirmed_stdin_bytes == integer_text_value(request.confirmed_stdin_bytes@)
    &&& saved.cleanup@ == request.cleanup.spec_name()
    &&& opt_view(saved.error) == opt_view(s.stored_error)
    &&& opt_view(saved.binding_json) == binding_json(request.binding)
    &&& opt_view(saved.usage_json) == opt_view(request.usage)
}

/// A lookup report delivered twice is applied once: the row its first
/// settlement stored matches the same report again, so the retry replays.
pub proof fn law_settlement_replays(
    saved: LookupResultRecord,
    request: LookupInvocationReport,
    verdict: Option<EnvelopeVerdict>,
    s: LookupSettlement,
)
    requires
        counter_ok(request.confirmed_stdin_bytes@),
        integer_text_ok(request.confirmed_stdin_bytes@),
        s.stored_status == stored_status(request.status, verdict),
        opt_view(s.stored_error) == report_error(request, verdict),
        records_settlement(saved, request, s),
    ensures
        result_matches(saved, request),
{
    let b = encode_utf8(request.confirmed_stdin_bytes@);
    assert(is_digit_byte(b[0]));
    assert(unsigned_part(b) == b);
    assert(!negative_text(b));
}

/// A lookup call with no usable envelope seals its run in the status that
/// matches the state its invocation is stored in: a stopped call (cleanup
/// settled) stops the run, an unresolved cleanup interrupts it, and any
/// other failure fails it. A chain stopped by the author ends stopped
/// unless its cleanup is unresolved.
pub proof fn law_lookup_seal_matches_invocation(status: ProviderOutcomeStatus, cleanup: ProviderCleanup)
    ensures
        (spec_outcome_state(None, status, cleanup) == LookupInvocationState::Stopped)
            == (failure_status(status, cleanup) == DiscussionRunStatus::Stopped),
        (spec_outcome_state(None, status, cleanup) == LookupInvocationState::Unknown)
            == (failure_status(status, cleanup) == DiscussionRunStatus::Interrupted),
        (spec_outcome_state(None, status, cleanup) == LookupInvocationState::Failed)
            == (failure_status(status, cleanup) == DiscussionRunStatus::Failed),
        status == ProviderOutcomeStatus::Stopped && cleanup == ProviderCleanup::Settled
            ==> failure_status(status, cleanup) == DiscussionRunStatus::Stopped,
        status != ProviderOutcomeStatus::Stopped && cleanup == ProviderCleanup::Settled
            ==> failure_status(status, cleanup) == DiscussionRunStatus::Failed,
        cleanup == ProviderCleanup::Unresolved ==> failure_status(status, cleanup) == DiscussionRunStatus::Interrupted,
        (stop_seal_status(cleanup) == DiscussionRunStatus::Stopped) == (cleanup == ProviderCleanup::Settled),
        (stop_seal_status(cleanup) == DiscussionRunStatus::Interrupted) == (cleanup == ProviderCleanup::Unresolved),
{
}

} // verus!
