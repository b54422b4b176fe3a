//! The integrity rules a stored lookup chain obeys: what a stored result row
//! may hold, which invocation state its response implies, and how a sealed
//! lookup run's terminal event and retained messages fit together.
use vstd::prelude::*;
use vstd::utf8::encode_utf8;
use crate::error::{CoreError, ErrorCode, fails_with};
use crate::lifecycle::{sealed, terminal_content, terminal_content_text};
use crate::lookup::{lookup_completed, parsed_kind, spec_outcome_state, stored_status, wide, EnvelopeVerdict, LookupInvocationReport, LookupInvocationState, ResponseKind};
use crate::text::{byte_len, byte_length, check_id, has_unsafe_control, integer_text_ok, integer_text_value, parse_lookup_counter, text_has_unsafe_control, valid_id};
use crate::lookup::{is_sanitized_error, sanitized_error};
use crate::digest::{lower_hex as hex_of, sha256_hex, sha256_of};
use crate::adoption::has_text;
use crate::request::validate_allowance;
use crate::vocab::{opt_view, str_eq, DiscussionRun, DiscussionRunStatus, LookupAllowance, ProviderOutcomeStatus, RunChange};

verus! {

broadcast use vstd::string::group_string_axioms;

/// A stored lookup result row, as read back.
#[derive(Debug)]
pub struct LookupResultRow {
    pub run_id: String,
    pub ordinal: i64,
    pub packet_id: String,
    pub event_id: String,
    pub expected_sequence: i64,
    pub assistant_text: String,
    pub outcome: String,
    pub confirmed_stdin_bytes: i64,
    pub cleanup: String,
    pub error: Option<String>,
}

pub open spec fn result_shape_error(row: LookupResultRow, envelope_limit: nat) -> Option<ErrorCode> {
    if !(0 <= row.ordinal <= 2) || row.expected_sequence < 0 || row.confirmed_stdin_bytes < 0 {
        Some(ErrorCode::InvalidProject)
    } else if !valid_id(row.run_id@) || !valid_id(row.packet_id@) || !valid_id(row.event_id@) {
        Some(ErrorCode::InvalidRequest)
    } else if byte_len(row.assistant_text@) > envelope_limit || has_unsafe_control(row.assistant_text@) {
        Some(ErrorCode::InvalidProject)
    } else {
        None
    }
}

/// A stored result has sane counters and identities, and its retained
/// reply fits one envelope and holds no unsafe control characters.
pub fn check_lookup_result_shape(row: &LookupResultRow, envelope_limit: usize) -> (r: Result<(), CoreError>)
    ensures
        match result_shape_error(*row, envelope_limit as nat) {
            Some(code) => fails_with(r, code),
            None => r is Ok,
        },
{
    if !(0 <= row.ordinal && row.ordinal <= 2) || row.expected_sequence < 0 || row.confirmed_stdin_bytes < 0 {
        return Err(CoreError::new(ErrorCode::InvalidProject, "A lookup result has invalid counters."));
    }
    if let Err(e) = check_id(row.run_id.as_str()) {
        return Err(e);
    }
    if let Err(e) = check_id(row.packet_id.as_str()) {
        return Err(e);
    }
    if let Err(e) = check_id(row.event_id.as_str()) {
        return Err(e);
    }
    if byte_length(row.assistant_text.as_str()) > envelope_limit || text_has_unsafe_control(row.assistant_text.as_str()) {
        return Err(CoreError::new(ErrorCode::InvalidProject, "A lookup result has invalid assistant bytes."));
    }
    Ok(())
}

/// The invocation state a stored result implies: a parsed envelope's own
/// state, else unknown for unresolved cleanup, stopped for a stopped call,
/// failed otherwise.
pub open spec fn implied_state(parsed: Option<ResponseKind>, outcome: Seq<char>, cleanup: Seq<char>) -> LookupInvocationState {
    match parsed {
        Some(kind) => kind.spec_state(),
        None => if cleanup == "unresolved"@ {
            LookupInvocationState::Unknown
        } else if outcome == "stopped"@ {
            LookupInvocationState::Stopped
        } else {
            LookupInvocationState::Failed
        },
    }
}

pub open spec fn result_state_consistent(row: LookupResultRow, parsed: Option<ResponseKind>, stored_state: Seq<char>) -> bool {
    &&& stored_state == implied_state(parsed, row.outcome@, row.cleanup@).spec_name()
    &&& (row.outcome@ == "completed"@ <==> parsed is Some)
}

/// A stored invocation's state is the one its result implies, and exactly
/// the completed results carry a parsed envelope. `parsed` is the kind of
/// the row's stored envelope, if it has one; `stored_state` the invocation's
/// stored state.
pub fn check_lookup_result_state(row: &LookupResultRow, parsed: Option<ResponseKind>, stored_state: &str) -> (r: Result<(), CoreError>)
    ensures
        r is Ok <==> result_state_consistent(*row, parsed, stored_state@),
        r matches Err(e) ==> e.code == ErrorCode::InvalidProject,
{
    proof {
        reveal_strlit("unresolved");
        reveal_strlit("stopped");
        reveal_strlit("completed");
    }
    let expected = match parsed {
        Some(kind) => kind.state(),
        None => if str_eq(row.cleanup.as_str(), "unresolved") {
            LookupInvocationState::Unknown
        } else if str_eq(row.outcome.as_str(), "stopped") {
            LookupInvocationState::Stopped
        } else {
            LookupInvocationState::Failed
        },
    };
    if !str_eq(stored_state, expected.as_str()) {
        return Err(CoreError::new(ErrorCode::InvalidProject, "A lookup result state does not match its immutable response."));
    }
    let completed = str_eq(row.outcome.as_str(), "completed");
    if completed && parsed.is_none() {
        return Err(CoreError::new(ErrorCode::InvalidProject, "A completed lookup result is missing its response envelope."));
    }
    if !completed && parsed.is_some() {
        return Err(CoreError::new(ErrorCode::InvalidProject, "A failed lookup result cannot contain a successful response envelope."));
    }
    Ok(())
}

pub open spec fn result_evidence_error(
    row: LookupResultRow,
    binding_matches: bool,
    input_size: u64,
    recorded_input: i64,
    recorded_output: i64,
    allowance: LookupAllowance,
) -> Option<ErrorCode> {
    let completed = row.outcome@ == "completed"@;
    if !binding_matches {
        Some(ErrorCode::InvalidProject)
    } else if wide(row.confirmed_stdin_bytes as int) > input_size || (completed && (wide(row.confirmed_stdin_bytes as int)
        != input_size || row.cleanup@ != "settled"@ || row.error is Some)) {
        Some(ErrorCode::InvalidProject)
    } else if !integer_text_ok(allowance.total_input_bytes@) || !integer_text_ok(allowance.total_output_bytes@) {
        Some(ErrorCode::InvalidLookupCounter)
    } else if wide(recorded_input as int) > wide(integer_text_value(allowance.total_input_bytes@))
        || wide(recorded_output as int) > wide(integer_text_value(allowance.total_output_bytes@)) {
        Some(ErrorCode::InvalidProject)
    } else {
        None
    }
}

/// A stored result matches its packet's binding, consumed no more than the
/// packet's input (all of it, with settled cleanup and no error, when it
/// completed), and its chain's recorded bytes stay within the allowance.
pub fn check_lookup_result_evidence(
    row: &LookupResultRow,
    binding_matches: bool,
    input_size: u64,
    recorded_input: i64,
    recorded_output: i64,
    allowance: &LookupAllowance,
) -> (r: Result<(), CoreError>)
    ensures
        match result_evidence_error(*row, binding_matches, input_size, recorded_input, recorded_output, *allowance) {
            Some(code) => fails_with(r, code),
            None => r is Ok,
        },
{
    proof {
        reveal_strlit("completed");
        reveal_strlit("settled");
    }
    if !binding_matches {
        return Err(CoreError::new(ErrorCode::InvalidProject, "A lookup result binding does not match its packet."));
    }
    let completed = str_eq(row.outcome.as_str(), "completed");
    let stdin: i64 = row.confirmed_stdin_bytes;
    let confirmed: u128 = stdin as u128;
    assert(confirmed == wide(stdin as int)) by (bit_vector)
        requires
            confirmed == stdin as u128;
    if confirmed > input_size as u128 || (completed && (confirmed != input_size as u128
        || !str_eq(row.cleanup.as_str(), "settled") || row.error.is_some())) {
        return Err(CoreError::new(ErrorCode::InvalidProject, "The lookup result has invalid delivery or cleanup evidence."));
    }
    let input_limit = match parse_lookup_counter(allowance.total_input_bytes.as_str()) {
        Ok(v) => v,
        Err(e) => return Err(e),
    };
    let output_limit = match parse_lookup_counter(allowance.total_output_bytes.as_str()) {
        Ok(v) => v,
        Err(e) => return Err(e),
    };
    let a: u128 = recorded_input as u128;
    let b: u128 = recorded_output as u128;
    let c: u128 = input_limit as u128;
    let d: u128 = output_limit as u128;
    assert(a == wide(recorded_input as int) && b == wide(recorded_output as int)
        && c == wide(input_limit as int) && d == wide(output_limit as int)) by (bit_vector)
        requires
            a == recorded_input as u128,
            b == recorded_output as u128,
            c == input_limit as u128,
            d == output_limit as u128;
    if a > c || b > d {
        return Err(CoreError::new(ErrorCode::InvalidProject, "The saved lookup chain exceeds its authorized byte allowance."));
    }
    Ok(())
}

/// A stored provider error is sanitized.
pub fn check_lookup_result_error(error: &Option<String>) -> (r: Result<(), CoreError>)
    ensures
        r is Ok <==> (error matches Some(e) ==> sanitized_error(e@)),
        r matches Err(e) ==> e.code == ErrorCode::InvalidProject,
{
    if let Some(e) = error {
        if !is_sanitized_error(e.as_str()) {
            return Err(CoreError::new(ErrorCode::InvalidProject, "A lookup result error is not sanitized."));
        }
    }
    Ok(())
}

pub open spec fn unavailable_detail_ok(code: Seq<char>, detail: Seq<char>, truncated: i64) -> bool {
    &&& code.len() > 0 && byte_len(code) <= 128
    &&& detail.len() > 0 && byte_len(detail) <= 4096
    &&& !has_unsafe_control(code) && !has_unsafe_control(detail)
    &&& truncated == 0
}

/// An unavailable read result names a bounded code and detail without
/// unsafe control characters, and is never truncated.
pub fn validate_unavailable_lookup_result(code: &str, detail: &str, truncated: i64) -> (r: Result<(), CoreError>)
    ensures
        r is Ok <==> unavailable_detail_ok(code@, detail@, truncated),
        r matches Err(e) ==> e.code == ErrorCode::InvalidProject,
{
    if code.is_empty() || byte_length(code) > 128 || detail.is_empty() || byte_length(detail) > 4096
        || text_has_unsafe_control(code) || text_has_unsafe_control(detail) || truncated != 0 {
        return Err(CoreError::new(ErrorCode::InvalidProject, "An unavailable lookup result has invalid bounded detail or truncation evidence."));
    }
    Ok(())
}

// ------------------------------------------------------- terminal runs

/// An assistant message retained for a run.
#[derive(Debug)]
pub struct RetainedMessage {
    pub content: String,
    pub packet_id: Option<String>,
}

/// A final discussion envelope stored for a lookup run.
#[derive(Debug)]
pub struct FinalResult {
    pub ordinal: i64,
    pub packet_id: String,
    pub outcome: String,
    pub text: String,
}

/// What the store holds of one lookup run, as its terminal check reads it.
#[derive(Debug)]
pub struct LookupRunRecord {
    pub status: DiscussionRunStatus,
    pub output_text: String,
    pub packet_id: String,
    /// The terminal event at the run's sequence: its ID and text.
    pub terminal: Option<(String, String)>,
    /// The event IDs of the chain's settled results.
    pub result_event_ids: Vec<String>,
    /// The run's assistant messages, oldest first.
    pub assistants: Vec<RetainedMessage>,
    /// The chain's stored final discussion envelopes, by ordinal.
    pub finals: Vec<FinalResult>,
    /// The invocations after the first final envelope's ordinal.
    pub later_invocations: i64,
    /// The event at the run's sequence: its kind and text.
    pub event_at_sequence: Option<(String, String)>,
    /// The assistant messages tied to the first final envelope's packet.
    pub final_packet_assistants: i64,
}

pub open spec fn one_message(assistants: Seq<RetainedMessage>, content: Seq<char>, packet_id: Seq<char>) -> bool {
    assistants.len() == 1 && assistants[0].content@ == content && opt_view(assistants[0].packet_id) == Some(packet_id)
}

pub open spec fn terminal_part_ok(rec: LookupRunRecord) -> bool {
    if rec.status.spec_terminal() {
        match rec.terminal {
            None => false,
            Some((event_id, text)) => {
                &&& (rec.status == DiscussionRunStatus::Completed ==> text@ == rec.output_text@)
                &&& (rec.result_event_ids@.len() == 0 || exists|i: int| 0 <= i < rec.result_event_ids@.len()
                    && (#[trigger] rec.result_event_ids@[i])@ == event_id@)
                &&& (rec.status != DiscussionRunStatus::Completed ==> one_message(rec.assistants@,
                    terminal_content(rec.output_text@, text@), rec.packet_id@))
            },
        }
    } else {
        true
    }
}

pub open spec fn finals_part_ok(rec: LookupRunRecord) -> bool {
    if rec.status == DiscussionRunStatus::Completed {
        &&& rec.finals@.len() == 1
        &&& rec.finals@[0].outcome@ == "completed"@
        &&& rec.later_invocations == 0
        &&& rec.event_at_sequence matches Some((kind, chunk)) && kind@ == "terminal"@ && chunk@ == rec.finals@[0].text@
        &&& one_message(rec.assistants@, rec.finals@[0].text@, rec.finals@[0].packet_id@)
    } else if rec.finals@.len() > 0 {
        &&& (rec.status == DiscussionRunStatus::Stopped || rec.status == DiscussionRunStatus::Interrupted)
        &&& rec.finals@.len() == 1
        &&& rec.final_packet_assistants == 0
    } else {
        true
    }
}

/// A lookup run's store is consistent: a terminal run has its terminal
/// event, tied to a settled result when there is one; a run sealed short of
/// completion keeps exactly one assistant message, its output followed by
/// the bracketed reason; a completed run has exactly one completed final
/// envelope, nothing after it, and its text as terminal event and sole
/// answer; and a final envelope on an unfinished run is only the stop race,
/// never published as an answer.
pub open spec fn lookup_run_consistent(rec: LookupRunRecord) -> bool {
    terminal_part_ok(rec) && finals_part_ok(rec)
}

fn one_message_exec(assistants: &Vec<RetainedMessage>, content: &str, packet_id: &str) -> (r: bool)
    ensures
        r == one_message(assistants@, content@, packet_id@),
{
    if assistants.len() != 1 {
        return false;
    }
    let m = &assistants[0];
    let same_packet = match &m.packet_id {
        Some(p) => str_eq(p.as_str(), packet_id),
        None => false,
    };
    str_eq(m.content.as_str(), content) && same_packet
}

fn contains_text(values: &Vec<String>, value: &str) -> (r: bool)
    ensures
        r == exists|i: int| 0 <= i < values@.len() && (#[trigger] values@[i])@ == value@,
{
    let n = values.len();
    let mut i: usize = 0;
    while i < n
        invariant
            n == values@.len(),
            0 <= i <= n,
            forall|j: int| 0 <= j < i ==> (#[trigger] values@[j])@ != value@,
        decreases n - i,
    {
        if str_eq(values[i].as_str(), value) {
            return true;
        }
        i += 1;
    }
    false
}

/// Checks a lookup run's stored terminal state against its results and
/// retained messages.
pub fn check_lookup_terminal_consistency(rec: &LookupRunRecord) -> (r: Result<(), CoreError>)
    ensures
        r is Ok <==> lookup_run_consistent(*rec),
        r matches Err(e) ==> e.code == ErrorCode::InvalidProject,
{
    proof {
        reveal_strlit("completed");
        reveal_strlit("terminal");
    }
    let completed = rec.status == DiscussionRunStatus::Completed;
    if rec.status.terminal() {
        let (event_id, text) = match &rec.terminal {
            None => return Err(CoreError::new(ErrorCode::InvalidProject, "A terminal lookup run has no matching terminal event.")),
            Some(t) => (&t.0, &t.1),
        };
        if completed && !str_eq(text.as_str(), rec.output_text.as_str()) {
            return Err(CoreError::new(ErrorCode::InvalidProject, "A completed lookup run output does not match its terminal event."));
        }
        if rec.result_event_ids.len() > 0 && !contains_text(&rec.result_event_ids, event_id.as_str()) {
            return Err(CoreError::new(ErrorCode::InvalidProject, "A terminal lookup result is not linked to the run terminal event."));
        }
        if !completed {
            let expected = terminal_content_text(rec.output_text.as_str(), text.as_str());
            if !one_message_exec(&rec.assistants, expected.as_str(), rec.packet_id.as_str()) {
                return Err(CoreError::new(ErrorCode::InvalidProject, "A terminal lookup run has no exact retained terminal assistant message."));
            }
        }
    }
    if completed {
        if rec.finals.len() != 1 {
            return Err(CoreError::new(ErrorCode::InvalidProject, "A completed lookup run is missing its unique final discussion result."));
        }
        let last = &rec.finals[0];
        if !str_eq(last.outcome.as_str(), "completed") {
            return Err(CoreError::new(ErrorCode::InvalidProject, "A completed lookup run has a non-completed final result."));
        }
        if rec.later_invocations != 0 {
            return Err(CoreError::new(ErrorCode::InvalidProject, "A completed lookup run has invocation history after its final result."));
        }
        let event_ok = match &rec.event_at_sequence {
            Some((kind, chunk)) => str_eq(kind.as_str(), "terminal") && str_eq(chunk.as_str(), last.text.as_str()),
            None => false,
        };
        if !event_ok {
            return Err(CoreError::new(ErrorCode::InvalidProject, "A completed lookup result does not match its terminal event."));
        }
        if !one_message_exec(&rec.assistants, last.text.as_str(), last.packet_id.as_str()) {
            return Err(CoreError::new(ErrorCode::InvalidProject, "A completed lookup run has no exact final assistant message."));
        }
    } else if rec.finals.len() > 0 {
        if !(rec.status == DiscussionRunStatus::Stopped || rec.status == DiscussionRunStatus::Interrupted) || rec.finals.len() != 1 {
            return Err(CoreError::new(ErrorCode::InvalidProject, "A lookup discussion result is attached to an invalid run state."));
        }
        if rec.final_packet_assistants != 0 {
            return Err(CoreError::new(ErrorCode::InvalidProject, "A stopped lookup race incorrectly published a final assistant message."));
        }
    }
    Ok(())
}

// ---------------------------------------------------------------------- laws

/// What settling a lookup call stores passes the storage check: the state it
/// gives the invocation is the state its stored outcome implies, and only a
/// completed outcome carries an envelope.
pub proof fn law_settled_result_state_is_implied(request: LookupInvocationReport, verdict: Option<EnvelopeVerdict>)
    ensures
        ({
            let parsed = parsed_kind(request.status, verdict);
            let stored = stored_status(request.status, verdict);
            &&& implied_state(parsed, stored.spec_name(), request.cleanup.spec_name())
                == spec_outcome_state(parsed, request.status, request.cleanup)
            &&& (stored.spec_name() == "completed"@ <==> parsed is Some)
        }),
{
    reveal_strlit("unresolved");
    reveal_strlit("stopped");
    reveal_strlit("completed");
    reveal_strlit("settled");
    reveal_strlit("failed");
    reveal_strlit("timed_out");
    reveal_strlit("output_limit");
    let parsed = parsed_kind(request.status, verdict);
    let stored = stored_status(request.status, verdict);
    assert("settled"@ != "unresolved"@) by {
        assert("settled"@.len() != "unresolved"@.len());
    }
    match stored {
        ProviderOutcomeStatus::Completed => {
            assert("completed"@ != "stopped"@) by { assert("completed"@.len() != "stopped"@.len()); }
        },
        ProviderOutcomeStatus::Stopped => {
            assert("completed"@ != "stopped"@) by { assert("completed"@.len() != "stopped"@.len()); }
        },
        ProviderOutcomeStatus::TimedOut => {
            assert("timed_out"@ != "stopped"@) by { assert("timed_out"@.len() != "stopped"@.len()); }
            assert("timed_out"@ != "completed"@) by { assert("timed_out"@[0] != "completed"@[0]); }
        },
        ProviderOutcomeStatus::OutputLimit => {
            assert("output_limit"@ != "stopped"@) by { assert("output_limit"@.len() != "stopped"@.len()); }
            assert("output_limit"@ != "completed"@) by { assert("output_limit"@.len() != "completed"@.len()); }
        },
        ProviderOutcomeStatus::Failed => {
            assert("failed"@ != "stopped"@) by { assert("failed"@.len() != "stopped"@.len()); }
            assert("failed"@ != "completed"@) by { assert("failed"@.len() != "completed"@.len()); }
        },
    }
}

/// What the lifecycle writes when it seals a lookup run short of completion
/// passes the storage check: the retained assistant message is the run's
/// output followed by the bracketed terminal text, tied to the run's packet.
pub proof fn law_sealed_lookup_run_is_consistent(
    c: RunChange,
    run: DiscussionRun,
    status: DiscussionRunStatus,
    reason: Seq<char>,
    event_id: Seq<char>,
    message: Seq<char>,
    rec: LookupRunRecord,
)
    requires
        sealed(c, run, status, reason, event_id, message),
        status != DiscussionRunStatus::Completed,
        status.spec_terminal(),
        rec.status == c.run.status,
        rec.output_text@ == c.run.output_text@,
        rec.packet_id@ == c.run.packet_id@,
        rec.terminal matches Some((id, text)) && id@ == event_id && text@ == message,
        rec.result_event_ids@.len() == 0,
        rec.assistants@.len() == 1,
        rec.assistants@[0].content@ == c.message->0.content@,
        opt_view(rec.assistants@[0].packet_id) == opt_view(c.message->0.packet_id),
        rec.finals@.len() == 0,
    ensures
        lookup_run_consistent(rec),
{
}

/// What the lifecycle writes when a final envelope completes a lookup run
/// passes the storage check.
pub proof fn law_completed_lookup_run_is_consistent(
    c: RunChange,
    run: DiscussionRun,
    packet_id: Seq<char>,
    event_id: Seq<char>,
    text: Seq<char>,
    rec: LookupRunRecord,
)
    requires
        lookup_completed(c, run, packet_id, event_id, text),
        rec.status == c.run.status,
        rec.output_text@ == c.run.output_text@,
        rec.terminal matches Some((id, t)) && id@ == c.event->0.event_id@ && t@ == c.event->0.chunk@,
        rec.result_event_ids@.len() == 1,
        rec.result_event_ids@[0]@ == event_id,
        rec.assistants@.len() == 1,
        rec.assistants@[0].content@ == c.message->0.content@,
        opt_view(rec.assistants@[0].packet_id) == opt_view(c.message->0.packet_id),
        rec.finals@.len() == 1,
        rec.finals@[0].outcome@ == "completed"@,
        rec.finals@[0].packet_id@ == packet_id,
        rec.finals@[0].text@ == text,
        rec.later_invocations == 0,
        rec.event_at_sequence matches Some((kind, chunk)) && kind@ == "terminal"@ && chunk@ == text,
    ensures
        lookup_run_consistent(rec),
{
}


// -------------------------------------------------------------- capability

/// The lookup capability a compiled packet's receipt carries.
#[derive(Debug)]
pub struct LookupReceipt {
    pub allowance: LookupAllowance,
    pub completed_invocations: u8,
    /// The capability's own validation verdict; `None` when it is valid.
    pub capability_error: Option<String>,
}

pub open spec fn same_allowance_fields(a: LookupAllowance, b: LookupAllowance) -> bool {
    a.max_additional_invocations == b.max_additional_invocations && a.total_input_bytes@ == b.total_input_bytes@
        && a.total_output_bytes@ == b.total_output_bytes@
}

pub open spec fn capability_error(ordinal: u8, allowance: LookupAllowance, receipt: Option<LookupReceipt>, source_epoch: Seq<char>, policy_version: Seq<char>) -> Option<ErrorCode> {
    if ordinal > 2 {
        Some(ErrorCode::InvalidLookupCounter)
    } else if allowance.validation_error is Some {
        Some(ErrorCode::InvalidLookupAllowance)
    } else {
        match receipt {
            None => Some(ErrorCode::InvalidLookupCapability),
            Some(l) => if l.capability_error is Some || !same_allowance_fields(l.allowance, allowance)
                || l.completed_invocations != ordinal {
                Some(ErrorCode::InvalidLookupCapability)
            } else if !integer_text_ok(source_epoch) || !integer_text_ok(policy_version) {
                Some(ErrorCode::InvalidLookupCounter)
            } else {
                None
            },
        }
    }
}

/// An invocation's packet retains the chain's lookup capability exactly:
/// the root's allowance and, as its count of completed invocations, its own
/// ordinal (0 for the root, at most 2). Returns the frozen story-source and
/// disclosure-policy epochs the invocation records.
pub fn check_lookup_capability(
    ordinal: u8,
    allowance: &LookupAllowance,
    receipt: &Option<LookupReceipt>,
    source_epoch: &str,
    policy_version: &str,
) -> (r: Result<(i64, i64), CoreError>)
    ensures
        match capability_error(ordinal, *allowance, *receipt, source_epoch@, policy_version@) {
            Some(code) => fails_with(r, code),
            None => r matches Ok((s, p)) && s == integer_text_value(source_epoch@) && p == integer_text_value(policy_version@),
        },
{
    if ordinal > 2 {
        return Err(CoreError::new(ErrorCode::InvalidLookupCounter, "A child lookup ordinal must be between 1 and 2."));
    }
    if let Err(e) = validate_allowance(allowance) {
        return Err(e);
    }
    let l = match receipt {
        None => return Err(CoreError::new(ErrorCode::InvalidLookupCapability, "The lookup packet is missing its lookup receipt.")),
        Some(l) => l,
    };
    if let Some(detail) = &l.capability_error {
        return Err(CoreError::new(ErrorCode::InvalidLookupCapability, detail.as_str()));
    }
    if l.allowance.max_additional_invocations != allowance.max_additional_invocations
        || !str_eq(l.allowance.total_input_bytes.as_str(), allowance.total_input_bytes.as_str())
        || !str_eq(l.allowance.total_output_bytes.as_str(), allowance.total_output_bytes.as_str())
        || l.completed_invocations != ordinal {
        return Err(CoreError::new(ErrorCode::InvalidLookupCapability, "The lookup packet does not retain the root lookup capability exactly."));
    }
    let s = match parse_lookup_counter(source_epoch) {
        Ok(v) => v,
        Err(e) => return Err(e),
    };
    let p = match parse_lookup_counter(policy_version) {
        Ok(v) => v,
        Err(e) => return Err(e),
    };
    Ok((s, p))
}

/// The reads a needs-context invocation asked for are expanded only from a
/// stored needs-context envelope. `response` is the kind of the stored
/// envelope of the invocation, if it has one.
pub fn check_pending_reads(response: Option<ResponseKind>) -> (r: Result<(), CoreError>)
    ensures
        response is None ==> fails_with(r, ErrorCode::LookupResponseMissing),
        response == Some(ResponseKind::Discussion) ==> fails_with(r, ErrorCode::LookupAlreadyFinished),
        response == Some(ResponseKind::NeedsContext) ==> r is Ok,
{
    match response {
        None => Err(CoreError::new(ErrorCode::LookupResponseMissing, "The lookup invocation has no saved response to expand.")),
        Some(ResponseKind::Discussion) => Err(CoreError::new(ErrorCode::LookupAlreadyFinished, "A final lookup discussion cannot be expanded.")),
        Some(ResponseKind::NeedsContext) => Ok(()),
    }
}

/// The saved packet row an invocation's delivery is judged against.
#[derive(Debug)]
pub struct SavedPacket {
    pub packet_json: String,
    pub packet_hash: String,
    pub stored_input_hash: String,
}

/// What the packet's own decoding says: its receipt's packet ID and input
/// fingerprint, the fingerprint of its recomputed input, and that input's
/// length.
#[derive(Debug)]
pub struct DecodedPacket {
    pub packet_id: String,
    pub receipt_input_hash: String,
    pub computed_input_hash: String,
    pub input_len: u64,
}

pub open spec fn delivery_view(
    confirmed: Option<i64>,
    packet_id: Seq<char>,
    saved: Option<SavedPacket>,
    decoded: DecodedPacket,
) -> Result<bool, ErrorCode> {
    match confirmed {
        None => Ok(false),
        Some(c) => if c <= 0 {
            Ok(false)
        } else if !crate::text::valid_id(packet_id) {
            Err(ErrorCode::InvalidRequest)
        } else {
            match saved {
                None => Err(ErrorCode::ContextPacketNotFound),
                Some(row) => if hex_of(sha256_of(vstd::utf8::encode_utf8(row.packet_json@))) != row.packet_hash@ {
                    Err(ErrorCode::InvalidContextPacket)
                } else if decoded.packet_id@ != packet_id {
                    Err(ErrorCode::InvalidContextPacket)
                } else if decoded.receipt_input_hash@ != row.stored_input_hash@ || decoded.computed_input_hash@ != row.stored_input_hash@ {
                    Err(ErrorCode::InvalidContextPacket)
                } else {
                    Ok(decoded.input_len == c)
                },
            }
        },
    }
}

/// Whether an invocation's provider consumed exactly its saved packet's
/// input, for the polling view. A call that confirmed no bytes was not
/// delivered; otherwise the saved packet must be intact and its input
/// exactly as long as the confirmed count. `decoded` is consulted only once
/// the saved packet's fingerprint holds.
pub fn input_delivery_matches_saved_packet(
    confirmed: Option<i64>,
    packet_id: &str,
    saved: &Option<SavedPacket>,
    decoded: &DecodedPacket,
) -> (r: Result<bool, CoreError>)
    ensures
        match delivery_view(confirmed, packet_id@, *saved, *decoded) {
            Ok(b) => r == Ok::<bool, CoreError>(b),
            Err(code) => fails_with(r, code),
        },
{
    let c = match confirmed {
        None => return Ok(false),
        Some(c) => c,
    };
    if c <= 0 {
        return Ok(false);
    }
    if let Err(e) = check_id(packet_id) {
        return Err(e);
    }
    let row = match saved {
        None => return Err(CoreError::new(ErrorCode::ContextPacketNotFound, "The prepared request is not available in this project.")),
        Some(row) => row,
    };
    let digest = sha256_hex(row.packet_json.as_str().as_bytes());
    if !str_eq(digest.as_str(), row.packet_hash.as_str()) {
        return Err(CoreError::new(ErrorCode::InvalidContextPacket, "The prepared request failed its fingerprint check."));
    }
    if !str_eq(decoded.packet_id.as_str(), packet_id) {
        return Err(CoreError::new(ErrorCode::InvalidContextPacket, "The prepared request receipt does not match its packet ID."));
    }
    if !str_eq(decoded.receipt_input_hash.as_str(), row.stored_input_hash.as_str())
        || !str_eq(decoded.computed_input_hash.as_str(), row.stored_input_hash.as_str()) {
        return Err(CoreError::new(ErrorCode::InvalidContextPacket, "The exact request input does not match its receipt."));
    }
    Ok(decoded.input_len == c as u64)
}

// -------------------------------------------------------------------- reads

/// The passages a read keeps, in source order: those whose block the read
/// names.
pub open spec fn selected_blocks(blocks: Seq<String>, requested: Seq<String>, n: nat) -> Seq<usize>
    decreases n,
{
    if n == 0 {
        Seq::empty()
    } else {
        let earlier = selected_blocks(blocks, requested, (n - 1) as nat);
        if has_text(requested, blocks[n - 1]@) { earlier.push((n - 1) as usize) } else { earlier }
    }
}

pub open spec fn all_blocks(n: nat) -> Seq<usize> {
    Seq::new(n, |i: int| i as usize)
}

/// Selects the passages a read of a frozen source returns. `blocks` are the
/// source's passage blocks in order and `requested` the blocks the read
/// names, or `None` for the whole source. A read naming a block the source
/// lacks is unavailable (`None`); otherwise the result is the indices of the
/// kept passages, in source order, and whether they are the whole source.
#[verifier::loop_isolation(false)]
pub fn select_passages(blocks: &Vec<String>, requested: &Option<Vec<String>>) -> (r: Option<(Vec<usize>, bool)>)
    ensures
        match requested {
            None => r matches Some((kept, complete)) && kept@ == all_blocks(blocks@.len()) && complete,
            Some(ids) => if exists|k: int| 0 <= k < ids@.len() && !has_text(blocks@, (#[trigger] ids@[k])@) {
                r is None
            } else {
                r matches Some((kept, complete)) && kept@ == selected_blocks(blocks@, ids@, blocks@.len())
                    && complete == forall|i: int| 0 <= i < blocks@.len() ==> has_text(ids@, (#[trigger] blocks@[i])@)
            },
        },
{
    let n = blocks.len();
    match requested {
        None => {
            let mut kept: Vec<usize> = Vec::new();
            let mut i: usize = 0;
            while i < n
                invariant
                    n == blocks@.len(),
                    0 <= i <= n,
                    kept@ == all_blocks(i as nat),
                decreases n - i,
            {
                kept.push(i);
                i += 1;
                assert(kept@ =~= all_blocks(i as nat));
            }
            Some((kept, true))
        },
        Some(ids) => {
            let m = ids.len();
            let mut k: usize = 0;
            while k < m
                invariant
                    m == ids@.len(),
                    0 <= k <= m,
                    forall|j: int| 0 <= j < k ==> has_text(blocks@, (#[trigger] ids@[j])@),
                decreases m - k,
            {
                if !names_block(blocks, ids[k].as_str()) {
                    assert(!has_text(blocks@, ids@[k as int]@));
                    return None;
                }
                k += 1;
            }
            let mut kept: Vec<usize> = Vec::new();
            let mut complete = true;
            let mut i: usize = 0;
            while i < n
                invariant
                    n == blocks@.len(),
                    0 <= i <= n,
                    kept@ == selected_blocks(blocks@, ids@, i as nat),
                    complete == forall|j: int| 0 <= j < i ==> has_text(ids@, (#[trigger] blocks@[j])@),
                decreases n - i,
            {
                if names_block(ids, blocks[i].as_str()) {
                    kept.push(i);
                } else {
                    complete = false;
                }
                i += 1;
            }
            Some((kept, complete))
        },
    }
}

fn names_block(values: &Vec<String>, value: &str) -> (r: bool)
    ensures
        r == has_text(values@, value@),
{
    let n = values.len();
    let mut i: usize = 0;
    while i < n
        invariant
            n == values@.len(),
            0 <= i <= n,
            forall|j: int| 0 <= j < i ==> (#[trigger] values@[j])@ != value@,
        decreases n - i,
    {
        if str_eq(values[i].as_str(), value) {
            return true;
        }
        i += 1;
    }
    false
}

/// A needs-context reply may ask only for reads its packet's lookup
/// capability authorizes. `capability` is the packet's capability check
/// (`None` when the packet has no lookup capability) and `reads[i]` the
/// authorization of read `i`, each with the refusal's detail.
#[verifier::loop_isolation(false)]
pub fn authorize_envelope(
    response: ResponseKind,
    capability: &Option<Result<(), String>>,
    reads: &Vec<Result<(), String>>,
) -> (r: Result<(), CoreError>)
    ensures
        r is Ok <==> (response == ResponseKind::Discussion || (capability matches Some(Ok(_))
            && forall|i: int| 0 <= i < reads@.len() ==> (#[trigger] reads@[i]) is Ok)),
        r matches Err(e) ==> e.code == ErrorCode::InvalidLookupCapability,
{
    if response == ResponseKind::Discussion {
        return Ok(());
    }
    match capability {
        None => return Err(CoreError::new(ErrorCode::InvalidLookupCapability, "A lookup response has no authorized lookup packet.")),
        Some(Err(detail)) => return Err(CoreError::new(ErrorCode::InvalidLookupCapability, detail.as_str())),
        Some(Ok(_)) => {},
    }
    let n = reads.len();
    let mut i: usize = 0;
    while i < n
        invariant
            n == reads@.len(),
            0 <= i <= n,
            forall|j: int| 0 <= j < i ==> (#[trigger] reads@[j]) is Ok,
        decreases n - i,
    {
        if let Err(detail) = &reads[i] {
            return Err(CoreError::new(ErrorCode::InvalidLookupCapability, detail.as_str()));
        }
        i += 1;
    }
    Ok(())
}

// ------------------------------------------------------------ recorded reads

/// What recording a lookup read does.
#[derive(Debug)]
pub enum ReadStore {
    /// The same read was already recorded with the same bytes.
    Replayed,
    /// A new read is recorded with these fingerprints.
    Insert { request_hash: String, result_hash: String },
}

/// The fingerprint a read's serialized bytes are recorded under.
pub open spec fn read_hash(json: Seq<char>) -> Seq<char> {
    hex_of(sha256_of(encode_utf8(json)))
}

/// Recording a read of a lookup invocation: reads are recorded only after a
/// needs-context response (`LookupReadUnavailable` otherwise). A read ID
/// already recorded (`existing` holds its request and result fingerprints)
/// is a replay when both fingerprints match and `LookupReadConflict`
/// otherwise; a new one is inserted under the fingerprints of its request
/// and result JSON.
pub fn plan_store_read(
    state: LookupInvocationState,
    request_json: &str,
    result_json: &str,
    existing: &Option<(String, String)>,
) -> (r: Result<ReadStore, CoreError>)
    ensures
        state != LookupInvocationState::NeedsContext ==> fails_with(r, ErrorCode::LookupReadUnavailable),
        state == LookupInvocationState::NeedsContext ==> match *existing {
            Some((saved_request, saved_result)) =>
                if saved_request@ == read_hash(request_json@) && saved_result@ == read_hash(result_json@) {
                    r matches Ok(ReadStore::Replayed)
                } else {
                    fails_with(r, ErrorCode::LookupReadConflict)
                },
            None => r matches Ok(ReadStore::Insert { request_hash, result_hash })
                && request_hash@ == read_hash(request_json@) && result_hash@ == read_hash(result_json@),
        },
{
    if state != LookupInvocationState::NeedsContext {
        return Err(CoreError::new(ErrorCode::LookupReadUnavailable, "Reads can only be recorded after a needs-context response."));
    }
    let request_hash = sha256_hex(request_json.as_bytes());
    let result_hash = sha256_hex(result_json.as_bytes());
    match existing {
        Some((saved_request, saved_result)) => {
            if str_eq(saved_request.as_str(), request_hash.as_str()) && str_eq(saved_result.as_str(), result_hash.as_str()) {
                Ok(ReadStore::Replayed)
            } else {
                Err(CoreError::new(ErrorCode::LookupReadConflict, "A lookup read ID was reused with different request or result bytes."))
            }
        },
        None => Ok(ReadStore::Insert { request_hash, result_hash }),
    }
}

} // verus!
