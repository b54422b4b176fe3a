//! Settling a live provider call: the shape a provider worker's terminal
//! report must have, the delivery evidence each transport owes, and the run
//! state, event and message a settled call commits.
use vstd::prelude::*;
use crate::error::{CoreError, ErrorCode, fails_with};
use crate::lifecycle::{check_owner_ids, owner_ids_valid, runtime_owner_ok, stop_settled_message, stop_settled_text, stop_unresolved_message, stop_unresolved_text, terminal_content, terminal_content_text, validate_final_output, final_output_error, validate_owner, validate_runtime_owner, MAX_COUNTER, MAX_EVENT_BYTES};
use crate::lookup::{counter_ok, counter_value, is_sanitized_error, sanitized_error};
use crate::operations::{same_identity, with_progress};
use crate::text::{decimal_chars, decimal_text, byte_len, byte_length, check_id, concat, is_lower_hex64, lower_hex64, parse_decimal_u64, parse_version, valid_id, version_ok, version_value};
use crate::vocab::{opt_str_eq, opt_view, str_eq, AssistantMessage, DiscussionRun, DiscussionRunStatus, DispatchState, EventKind, ExistingEvent, OutputEvent, ProjectInfo, ProviderBinding, ProviderCleanup, ProviderOutcomeStatus, ProviderTransport, RunChange, RunOwner};

verus! {

broadcast use vstd::string::group_string_axioms;

/// The evidence an HTTP provider worker keeps of the request body it sent.
#[derive(Debug)]
pub struct ProviderDeliveryReceipt {
    /// The lowercase SHA-256 of the request body.
    pub body_hash: String,
    /// The request body's length in bytes, as a decimal string.
    pub body_bytes: String,
    /// Whether the whole response was received.
    pub response_received: bool,
}

/// The evidence an app-server provider worker keeps of its session.
#[derive(Debug)]
pub struct AppServerReceipt {
    /// The receipt's canonical serialized form.
    pub canonical_json: String,
    /// The receipt's own validation verdict; `None` when it is valid.
    pub validation_error: Option<String>,
}

/// A provider worker's terminal report of one live discussion call.
#[derive(Debug)]
pub struct ProviderTerminalReport {
    pub owner: RunOwner,
    pub event_id: String,
    pub expected_sequence: String,
    pub assistant_text: String,
    pub binding: ProviderBinding,
    pub status: ProviderOutcomeStatus,
    pub confirmed_stdin_bytes: String,
    /// The provider usage in its canonical serialized form.
    pub usage: Option<String>,
    pub cleanup: ProviderCleanup,
    pub error: Option<String>,
    pub effective_identity: Option<String>,
    pub reported_model: Option<String>,
    pub delivery: Option<ProviderDeliveryReceipt>,
    pub app_server: Option<AppServerReceipt>,
}

/// The provider result durably recorded for a run's packet.
#[derive(Debug)]
pub struct ProviderResult {
    pub run_id: String,
    pub event_id: String,
    pub expected_sequence: String,
    pub assistant_text: String,
    pub binding: ProviderBinding,
    pub status: ProviderOutcomeStatus,
    pub confirmed_stdin_bytes: String,
    pub usage: Option<String>,
    pub cleanup: ProviderCleanup,
    pub error: Option<String>,
    pub effective_identity: Option<String>,
    pub reported_model: Option<String>,
    pub delivery: Option<ProviderDeliveryReceipt>,
    pub app_server: Option<AppServerReceipt>,
}

/// What the provider profiles say about a report: the transports' input
/// caps, and whether the model-reporting profile knows the reported model.
#[derive(Debug, Clone, Copy)]
pub struct ProviderFacts {
    pub codex_input_limit: u64,
    pub codex_output_limit: u64,
    pub http_input_limit: u64,
    pub reported_model_known: bool,
}

/// The body of the HTTP request a packet prepares.
#[derive(Debug)]
pub struct HttpBody {
    pub body_hash: String,
    pub body_bytes: String,
}

pub open spec fn is_http(b: ProviderBinding) -> bool {
    b.transport == ProviderTransport::Http
}

pub open spec fn is_app_server(b: ProviderBinding) -> bool {
    b.transport == ProviderTransport::AppServer
}

// ------------------------------------------------------------ report shape

pub open spec fn http_shape_error(delivery: Option<ProviderDeliveryReceipt>, status: ProviderOutcomeStatus, limit: u64) -> Option<ErrorCode> {
    match delivery {
        None => Some(ErrorCode::InvalidRequest),
        Some(d) => if !lower_hex64(d.body_hash@) || !counter_ok(d.body_bytes@) {
            Some(ErrorCode::InvalidRequest)
        } else if counter_value(d.body_bytes@) == 0 || counter_value(d.body_bytes@) > limit {
            Some(ErrorCode::InvalidRequest)
        } else if status == ProviderOutcomeStatus::Completed && !d.response_received {
            Some(ErrorCode::InvalidRequest)
        } else {
            None
        },
    }
}

/// HTTP delivery evidence names a lowercase SHA-256 body hash, a nonzero
/// body length within the HTTP input cap, and for a completed call a fully
/// received response.
pub fn validate_http_delivery_shape(
    delivery: Option<&ProviderDeliveryReceipt>,
    status: ProviderOutcomeStatus,
    limit: u64,
) -> (r: Result<(), CoreError>)
    ensures
        match http_shape_error(match delivery { Some(d) => Some(*d), None => None }, status, limit) {
            Some(code) => fails_with(r, code),
            None => r is Ok,
        },
{
    let delivery = match delivery {
        Some(d) => d,
        None => return Err(CoreError::new(ErrorCode::InvalidRequest, "An OpenAI-compatible provider report needs HTTP delivery evidence.")),
    };
    if !is_lower_hex64(delivery.body_hash.as_str()) {
        return Err(CoreError::new(ErrorCode::InvalidRequest, "The HTTP request body hash is invalid."));
    }
    let body_bytes = match parse_decimal_u64(delivery.body_bytes.as_str()) {
        Ok(v) => v,
        Err(e) => return Err(e),
    };
    if body_bytes == 0 || body_bytes > limit {
        return Err(CoreError::new(ErrorCode::InvalidRequest, "The HTTP request body byte count is outside the application limit."));
    }
    if status == ProviderOutcomeStatus::Completed && !delivery.response_received {
        return Err(CoreError::new(ErrorCode::InvalidRequest, "A completed HTTP provider result needs a fully received response."));
    }
    Ok(())
}

/// Whether a reported model identity is refused: a completed result of the
/// model-reporting profile must retain one; only such a result may retain
/// one, and only one the profile knows; a completed result's must be the
/// requested model.
pub open spec fn reported_model_refused(binding: ProviderBinding, status: ProviderOutcomeStatus, reported: Option<String>, known: bool) -> bool {
    match reported {
        None => binding.model_reporting && status == ProviderOutcomeStatus::Completed,
        Some(m) => !binding.model_reporting || !known || (status == ProviderOutcomeStatus::Completed && m@ != binding.model_id@),
    }
}

/// Checks a reported model identity; a refusal is `InvalidProject` for a
/// persisted result and `InvalidRequest` for a new report.
pub fn validate_reported_model(
    binding: &ProviderBinding,
    status: ProviderOutcomeStatus,
    reported: Option<&String>,
    known: bool,
    persisted: bool,
) -> (r: Result<(), CoreError>)
    ensures
        r is Ok <==> !reported_model_refused(*binding, status, match reported { Some(m) => Some(*m), None => None }, known),
        r matches Err(e) ==> e.code == (if persisted { ErrorCode::InvalidProject } else { ErrorCode::InvalidRequest }),
{
    let code = if persisted { ErrorCode::InvalidProject } else { ErrorCode::InvalidRequest };
    let reported = match reported {
        None => {
            if binding.model_reporting && status == ProviderOutcomeStatus::Completed {
                return Err(CoreError::new(code, "A completed result of the model-reporting profile must retain its reported model identity."));
            }
            return Ok(());
        },
        Some(m) => m,
    };
    if !binding.model_reporting || !known {
        return Err(CoreError::new(code, "Only a result of the model-reporting profile may retain a known reported model identity."));
    }
    if status == ProviderOutcomeStatus::Completed && !str_eq(reported.as_str(), binding.model_id.as_str()) {
        return Err(CoreError::new(code, "A completed result reported a different model than the request binding."));
    }
    Ok(())
}

pub open spec fn app_server_shape_error(request: ProviderTerminalReport) -> Option<ErrorCode> {
    if is_app_server(request.binding) {
        match request.app_server {
            None => Some(ErrorCode::InvalidAppServerDelivery),
            Some(receipt) => if receipt.validation_error is Some { Some(ErrorCode::InvalidAppServerDelivery) } else { None },
        }
    } else if request.app_server is Some {
        Some(ErrorCode::InvalidRequest)
    } else {
        None
    }
}

pub open spec fn report_shape_error(request: ProviderTerminalReport, facts: ProviderFacts) -> Option<ErrorCode> {
    let bytes = counter_value(request.confirmed_stdin_bytes@);
    if !owner_ids_valid(request.owner) || !valid_id(request.event_id@) {
        Some(ErrorCode::InvalidRequest)
    } else if request.binding.validation_error is Some {
        Some(ErrorCode::InvalidProviderBinding)
    } else if !counter_ok(request.confirmed_stdin_bytes@) {
        Some(ErrorCode::InvalidRequest)
    } else if (is_http(request.binding) || is_app_server(request.binding)) && bytes != 0 {
        Some(ErrorCode::InvalidRequest)
    } else if !is_http(request.binding) && bytes > facts.codex_input_limit {
        Some(ErrorCode::InputTooLarge)
    } else if byte_len(request.assistant_text@) > request.binding.output_limit {
        Some(ErrorCode::OutputTooLarge)
    } else if is_http(request.binding) && http_shape_error(request.delivery, request.status, facts.http_input_limit) is Some {
        http_shape_error(request.delivery, request.status, facts.http_input_limit)
    } else if !is_http(request.binding) && request.delivery is Some {
        Some(ErrorCode::InvalidRequest)
    } else if app_server_shape_error(request) is Some {
        app_server_shape_error(request)
    } else if request.error matches Some(e) && !sanitized_error(e@) {
        Some(ErrorCode::InvalidRequest)
    } else if request.effective_identity is Some {
        Some(ErrorCode::InvalidRequest)
    } else if reported_model_refused(request.binding, request.status, request.reported_model, facts.reported_model_known) {
        Some(ErrorCode::InvalidRequest)
    } else {
        None
    }
}

/// A terminal report is well formed for its binding's transport: bounded
/// input and output, the delivery evidence that transport owes and no other,
/// a sanitized error, no claimed effective identity, and an acceptable
/// reported model.
pub fn validate_provider_report_shape(request: &ProviderTerminalReport, facts: &ProviderFacts) -> (r: Result<(), CoreError>)
    ensures
        match report_shape_error(*request, *facts) {
            Some(code) => fails_with(r, code),
            None => r is Ok,
        },
{
    if let Err(e) = check_owner_ids(&request.owner) {
        return Err(e);
    }
    if let Err(e) = check_id(request.event_id.as_str()) {
        return Err(e);
    }
    if let Some(detail) = &request.binding.validation_error {
        return Err(CoreError::new(ErrorCode::InvalidProviderBinding, detail.as_str()));
    }
    let bytes = match parse_decimal_u64(request.confirmed_stdin_bytes.as_str()) {
        Ok(v) => v,
        Err(e) => return Err(e),
    };
    let http = request.binding.transport == ProviderTransport::Http;
    let app_server = request.binding.transport == ProviderTransport::AppServer;
    if (http || app_server) && bytes != 0 {
        return Err(CoreError::new(ErrorCode::InvalidRequest, "An HTTP provider report must retain a zero Codex stdin count."));
    }
    if !http && bytes > facts.codex_input_limit {
        return Err(CoreError::new(ErrorCode::InputTooLarge, "The provider stdin exceeds the application byte cap."));
    }
    if byte_length(request.assistant_text.as_str()) > request.binding.output_limit {
        return Err(CoreError::new(ErrorCode::OutputTooLarge, "The provider output exceeds the application byte cap."));
    }
    if http {
        let delivery = match &request.delivery {
            Some(d) => Some(d),
            None => None,
        };
        if let Err(e) = validate_http_delivery_shape(delivery, request.status, facts.http_input_limit) {
            return Err(e);
        }
    } else if request.delivery.is_some() {
        return Err(CoreError::new(ErrorCode::InvalidRequest, "A Codex provider report cannot contain HTTP delivery evidence."));
    }
    if app_server {
        match &request.app_server {
            None => return Err(CoreError::new(ErrorCode::InvalidAppServerDelivery, "App-server delivery evidence is required.")),
            Some(receipt) => {
                if let Some(detail) = &receipt.validation_error {
                    return Err(CoreError::new(ErrorCode::InvalidAppServerDelivery, detail.as_str()));
                }
            },
        }
    } else if request.app_server.is_some() {
        return Err(CoreError::new(ErrorCode::InvalidRequest, "App-server evidence requires an app-server binding."));
    }
    if let Some(error) = &request.error {
        if !is_sanitized_error(error.as_str()) {
            return Err(CoreError::new(ErrorCode::InvalidRequest, "The provider error must be sanitized and at most 4 KiB."));
        }
    }
    if request.effective_identity.is_some() {
        return Err(CoreError::new(ErrorCode::InvalidRequest, "The current provider boundary cannot confirm an effective identity."));
    }
    let reported = match &request.reported_model {
        Some(m) => Some(m),
        None => None,
    };
    validate_reported_model(&request.binding, request.status, reported, facts.reported_model_known, false)
}


// ---------------------------------------------------------------- delivery

pub open spec fn body_matches(d: ProviderDeliveryReceipt, prepared: HttpBody) -> bool {
    d.body_hash@ == prepared.body_hash@ && d.body_bytes@ == prepared.body_bytes@
}

/// An HTTP call sent exactly the packet's prepared request body, and a
/// completed call received the whole response. `prepared` is the body the
/// packet prepares, as computed.
pub fn validate_http_delivery(
    prepared: Result<HttpBody, CoreError>,
    request: &ProviderTerminalReport,
    limit: u64,
) -> (r: Result<(), CoreError>)
    ensures
        match http_shape_error(request.delivery, request.status, limit) {
            Some(code) => fails_with(r, code),
            None => match prepared {
                Err(e) => r == Err::<(), CoreError>(e),
                Ok(body) => if body_matches(request.delivery->0, body) {
                    r is Ok
                } else {
                    fails_with(r, ErrorCode::ProviderInputMismatch)
                },
            },
        },
{
    let delivery = match &request.delivery {
        Some(d) => d,
        None => return Err(CoreError::new(ErrorCode::InvalidRequest, "An OpenAI-compatible provider report needs HTTP delivery evidence.")),
    };
    if let Err(e) = validate_http_delivery_shape(Some(delivery), request.status, limit) {
        return Err(e);
    }
    let body = match prepared {
        Ok(b) => b,
        Err(e) => return Err(e),
    };
    if !str_eq(delivery.body_hash.as_str(), body.body_hash.as_str()) || !str_eq(delivery.body_bytes.as_str(), body.body_bytes.as_str()) {
        return Err(CoreError::new(ErrorCode::ProviderInputMismatch, "The HTTP delivery receipt does not match the immutable request body."));
    }
    Ok(())
}

/// A stored HTTP result keeps delivery evidence of the packet's own binding
/// and request body.
pub fn validate_stored_http_delivery(
    packet_binding: &Option<ProviderBinding>,
    binding: &ProviderBinding,
    delivery: Option<&ProviderDeliveryReceipt>,
    prepared: Result<HttpBody, CoreError>,
    limit: u64,
) -> (r: Result<(), CoreError>)
    ensures
        match delivery {
            None => fails_with(r, ErrorCode::InvalidProject),
            Some(d) => match http_shape_error(Some(*d), ProviderOutcomeStatus::Failed, limit) {
                Some(code) => fails_with(r, code),
                None => if !(packet_binding matches Some(p) && p.same(*binding)) {
                    fails_with(r, ErrorCode::InvalidProject)
                } else {
                    match prepared {
                        Err(e) => r == Err::<(), CoreError>(e),
                        Ok(body) => if body_matches(*d, body) { r is Ok } else { fails_with(r, ErrorCode::InvalidProject) },
                    }
                },
            },
        },
{
    let delivery = match delivery {
        Some(d) => d,
        None => return Err(CoreError::new(ErrorCode::InvalidProject, "An HTTP provider result is missing its delivery receipt.")),
    };
    if let Err(e) = validate_http_delivery_shape(Some(delivery), ProviderOutcomeStatus::Failed, limit) {
        return Err(e);
    }
    let same = match packet_binding {
        Some(p) => p.same_binding(binding),
        None => false,
    };
    if !same {
        return Err(CoreError::new(ErrorCode::InvalidProject, "The HTTP delivery receipt does not match its packet binding."));
    }
    let body = match prepared {
        Ok(b) => b,
        Err(e) => return Err(e),
    };
    if !str_eq(delivery.body_hash.as_str(), body.body_hash.as_str()) || !str_eq(delivery.body_bytes.as_str(), body.body_bytes.as_str()) {
        return Err(CoreError::new(ErrorCode::InvalidProject, "The saved HTTP delivery receipt does not match the immutable request body."));
    }
    Ok(())
}

// -------------------------------------------------------------- outcomes

pub open spec fn same_delivery(a: Option<ProviderDeliveryReceipt>, b: Option<ProviderDeliveryReceipt>) -> bool {
    match (a, b) {
        (Some(x), Some(y)) => x.body_hash@ == y.body_hash@ && x.body_bytes@ == y.body_bytes@ && x.response_received == y.response_received,
        (None, None) => true,
        _ => false,
    }
}

pub open spec fn same_app_server(a: Option<AppServerReceipt>, b: Option<AppServerReceipt>) -> bool {
    match (a, b) {
        (Some(x), Some(y)) => x.canonical_json@ == y.canonical_json@,
        (None, None) => true,
        _ => false,
    }
}

/// The recorded result is this very report.
pub open spec fn result_matches_report(saved: ProviderResult, report: ProviderTerminalReport) -> bool {
    &&& saved.run_id@ == report.owner.run_id@
    &&& saved.event_id@ == report.event_id@
    &&& saved.expected_sequence@ == report.expected_sequence@
    &&& saved.assistant_text@ == report.assistant_text@
    &&& saved.binding.same(report.binding)
    &&& saved.status == report.status
    &&& saved.confirmed_stdin_bytes@ == report.confirmed_stdin_bytes@
    &&& same_app_server(saved.app_server, report.app_server)
    &&& opt_view(saved.usage) == opt_view(report.usage)
    &&& saved.cleanup == report.cleanup
    &&& opt_view(saved.error) == opt_view(report.error)
    &&& opt_view(saved.effective_identity) == opt_view(report.effective_identity)
    &&& opt_view(saved.reported_model) == opt_view(report.reported_model)
    &&& same_delivery(saved.delivery, report.delivery)
}

fn same_delivery_exec(a: &Option<ProviderDeliveryReceipt>, b: &Option<ProviderDeliveryReceipt>) -> (r: bool)
    ensures
        r == same_delivery(*a, *b),
{
    match (a, b) {
        (Some(x), Some(y)) => str_eq(x.body_hash.as_str(), y.body_hash.as_str()) && str_eq(x.body_bytes.as_str(), y.body_bytes.as_str())
            && x.response_received == y.response_received,
        (None, None) => true,
        _ => false,
    }
}

fn same_app_server_exec(a: &Option<AppServerReceipt>, b: &Option<AppServerReceipt>) -> (r: bool)
    ensures
        r == same_app_server(*a, *b),
{
    match (a, b) {
        (Some(x), Some(y)) => str_eq(x.canonical_json.as_str(), y.canonical_json.as_str()),
        (None, None) => true,
        _ => false,
    }
}

/// Whether a retried report is the recorded one, field by field.
pub fn provider_result_matches_report(saved: &ProviderResult, report: &ProviderTerminalReport) -> (r: bool)
    ensures
        r == result_matches_report(*saved, *report),
{
    str_eq(saved.run_id.as_str(), report.owner.run_id.as_str())
        && str_eq(saved.event_id.as_str(), report.event_id.as_str())
        && str_eq(saved.expected_sequence.as_str(), report.expected_sequence.as_str())
        && str_eq(saved.assistant_text.as_str(), report.assistant_text.as_str())
        && saved.binding.same_binding(&report.binding)
        && saved.status == report.status
        && str_eq(saved.confirmed_stdin_bytes.as_str(), report.confirmed_stdin_bytes.as_str())
        && same_app_server_exec(&saved.app_server, &report.app_server)
        && opt_str_eq(&saved.usage, &report.usage)
        && saved.cleanup == report.cleanup
        && opt_str_eq(&saved.error, &report.error)
        && opt_str_eq(&saved.effective_identity, &report.effective_identity)
        && opt_str_eq(&saved.reported_model, &report.reported_model)
        && same_delivery_exec(&saved.delivery, &report.delivery)
}

pub open spec fn settled_status(current: DiscussionRunStatus, outcome: ProviderOutcomeStatus, cleanup: ProviderCleanup) -> DiscussionRunStatus {
    if cleanup == ProviderCleanup::Unresolved {
        DiscussionRunStatus::Interrupted
    } else if current == DiscussionRunStatus::Stopping || outcome == ProviderOutcomeStatus::Stopped {
        DiscussionRunStatus::Stopped
    } else if outcome == ProviderOutcomeStatus::Completed {
        DiscussionRunStatus::Completed
    } else {
        DiscussionRunStatus::Failed
    }
}

/// The status a provider call settles its run in: interrupted when cleanup
/// is unresolved, stopped when the author stopped it or the provider did,
/// completed when the call completed, failed otherwise.
pub fn provider_discussion_status(current: DiscussionRunStatus, outcome: ProviderOutcomeStatus, cleanup: ProviderCleanup) -> (r: DiscussionRunStatus)
    ensures
        r == settled_status(current, outcome, cleanup),
{
    if cleanup == ProviderCleanup::Unresolved {
        DiscussionRunStatus::Interrupted
    } else if current == DiscussionRunStatus::Stopping || outcome == ProviderOutcomeStatus::Stopped {
        DiscussionRunStatus::Stopped
    } else if outcome == ProviderOutcomeStatus::Completed {
        DiscussionRunStatus::Completed
    } else {
        DiscussionRunStatus::Failed
    }
}

pub open spec fn settled_reason(current: DiscussionRunStatus, outcome: ProviderOutcomeStatus, cleanup: ProviderCleanup) -> Option<Seq<char>> {
    if cleanup == ProviderCleanup::Unresolved {
        Some("provider_cleanup_unresolved"@)
    } else if current == DiscussionRunStatus::Stopping {
        Some("author_stopped"@)
    } else {
        match outcome {
            ProviderOutcomeStatus::Completed => None,
            ProviderOutcomeStatus::Stopped => Some("provider_stopped"@),
            ProviderOutcomeStatus::TimedOut => Some("provider_timed_out"@),
            ProviderOutcomeStatus::OutputLimit => Some("provider_output_limit"@),
            ProviderOutcomeStatus::Failed => Some("provider_failed"@),
        }
    }
}

/// The stop reason a settled provider call records; none for a completed one.
pub fn provider_stop_reason(current: DiscussionRunStatus, outcome: ProviderOutcomeStatus, cleanup: ProviderCleanup) -> (r: Option<&'static str>)
    ensures
        match r { Some(s) => Some(s@), None => None::<Seq<char>> } == settled_reason(current, outcome, cleanup),
{
    if cleanup == ProviderCleanup::Unresolved {
        Some("provider_cleanup_unresolved")
    } else if current == DiscussionRunStatus::Stopping {
        Some("author_stopped")
    } else {
        match outcome {
            ProviderOutcomeStatus::Completed => None,
            ProviderOutcomeStatus::Stopped => Some("provider_stopped"),
            ProviderOutcomeStatus::TimedOut => Some("provider_timed_out"),
            ProviderOutcomeStatus::OutputLimit => Some("provider_output_limit"),
            ProviderOutcomeStatus::Failed => Some("provider_failed"),
        }
    }
}

pub open spec fn terminal_message(request: ProviderTerminalReport, status: DiscussionRunStatus) -> Seq<char> {
    if status == DiscussionRunStatus::Completed {
        request.assistant_text@
    } else {
        match request.error {
            Some(e) => "Provider request failed: "@ + e@,
            None => match status {
                DiscussionRunStatus::Stopped => stop_settled_text(),
                DiscussionRunStatus::Interrupted => stop_unresolved_text(),
                DiscussionRunStatus::Failed => match request.status {
                    ProviderOutcomeStatus::TimedOut => "The provider request timed out."@,
                    ProviderOutcomeStatus::OutputLimit => "The provider output reached the application limit."@,
                    _ => "The provider request failed."@,
                },
                _ => "The provider request ended without a completed response."@,
            },
        }
    }
}

pub open spec fn terminal_message_ok(request: ProviderTerminalReport, status: DiscussionRunStatus) -> bool {
    status == DiscussionRunStatus::Completed || (terminal_message(request, status).len() > 0
        && byte_len(terminal_message(request, status)) <= MAX_EVENT_BYTES)
}

/// The terminal event's text: the answer itself for a completed call, else
/// the provider's error or a sentence for the way the call ended.
pub fn provider_terminal_message(request: &ProviderTerminalReport, status: DiscussionRunStatus) -> (r: Result<String, CoreError>)
    ensures
        terminal_message_ok(*request, status) ==> (r matches Ok(m) && m@ == terminal_message(*request, status)),
        !terminal_message_ok(*request, status) ==> fails_with(r, ErrorCode::InvalidRequest),
{
    if status == DiscussionRunStatus::Completed {
        return Ok(request.assistant_text.clone());
    }
    let message: String = match &request.error {
        Some(error) => concat("Provider request failed: ", error.as_str()),
        None => match status {
            DiscussionRunStatus::Stopped => stop_settled_message().to_owned(),
            DiscussionRunStatus::Interrupted => stop_unresolved_message().to_owned(),
            DiscussionRunStatus::Failed => match request.status {
                ProviderOutcomeStatus::TimedOut => "The provider request timed out.".to_owned(),
                ProviderOutcomeStatus::OutputLimit => "The provider output reached the application limit.".to_owned(),
                _ => "The provider request failed.".to_owned(),
            },
            _ => "The provider request ended without a completed response.".to_owned(),
        },
    };
    if message.as_str().is_empty() || byte_length(message.as_str()) > MAX_EVENT_BYTES {
        return Err(CoreError::new(ErrorCode::InvalidRequest, "The provider terminal message is too large."));
    }
    Ok(message)
}


// ------------------------------------------------------------------ settle

/// Where a provider report stands before its packet is read.
#[derive(Debug)]
pub enum ProviderSettleStart {
    /// The same report was already recorded: the run and the recorded
    /// result are returned unchanged.
    Replayed(DiscussionRun, ProviderResult),
    /// Settle the call against the run's packet.
    Proceed,
}

pub open spec fn settle_request_error(info: ProjectInfo, request: ProviderTerminalReport, facts: ProviderFacts) -> Option<ErrorCode> {
    if report_shape_error(request, facts) is Some {
        report_shape_error(request, facts)
    } else if !runtime_owner_ok(info, request.owner) {
        Some(ErrorCode::DiscussionProjectMismatch)
    } else if !version_ok(request.expected_sequence@) {
        Some(ErrorCode::InvalidRequest)
    } else {
        None
    }
}

/// Decides whether a provider worker's terminal report is new, a replay of
/// the recorded result, or refused. `current` is the read of the run and
/// `saved` the read of the result already recorded for the run's packet.
pub fn settle_provider_discussion(
    info: &ProjectInfo,
    request: &ProviderTerminalReport,
    facts: &ProviderFacts,
    current: Result<DiscussionRun, CoreError>,
    saved: Result<Option<ProviderResult>, CoreError>,
) -> (r: Result<ProviderSettleStart, CoreError>)
    ensures
        match settle_request_error(*info, *request, *facts) {
            Some(code) => fails_with(r, code),
            None => match current {
                Err(e) => r == Err::<ProviderSettleStart, CoreError>(e),
                Ok(run) => if !run.owner.same(request.owner) {
                    fails_with(r, ErrorCode::DiscussionProjectMismatch)
                } else if run.lookup is Some {
                    fails_with(r, ErrorCode::LookupInvocationRequired)
                } else {
                    match saved {
                        Err(e) => r == Err::<ProviderSettleStart, CoreError>(e),
                        Ok(Some(record)) => if result_matches_report(record, *request) {
                            r == Ok::<ProviderSettleStart, CoreError>(ProviderSettleStart::Replayed(run, record))
                        } else {
                            fails_with(r, ErrorCode::ProviderResultConflict)
                        },
                        Ok(None) => if run.status == DiscussionRunStatus::Running || run.status == DiscussionRunStatus::Stopping {
                            r == Ok::<ProviderSettleStart, CoreError>(ProviderSettleStart::Proceed)
                        } else {
                            fails_with(r, ErrorCode::RunNotStarted)
                        },
                    }
                },
            },
        },
{
    if let Err(e) = validate_provider_report_shape(request, facts) {
        return Err(e);
    }
    if let Err(e) = validate_runtime_owner(info, &request.owner) {
        return Err(e);
    }
    if let Err(e) = parse_version(request.expected_sequence.as_str()) {
        return Err(e);
    }
    let current = match current {
        Ok(run) => run,
        Err(e) => return Err(e),
    };
    if let Err(e) = validate_owner(&current, &request.owner) {
        return Err(e);
    }
    if let Err(e) = crate::lifecycle::reject_legacy_lookup_path(&current) {
        return Err(e);
    }
    let saved = match saved {
        Ok(s) => s,
        Err(e) => return Err(e),
    };
    if let Some(record) = saved {
        if provider_result_matches_report(&record, request) {
            return Ok(ProviderSettleStart::Replayed(current, record));
        }
        return Err(CoreError::new(ErrorCode::ProviderResultConflict, "A provider result is already durably recorded for this run."));
    }
    if current.status != DiscussionRunStatus::Running && current.status != DiscussionRunStatus::Stopping {
        return Err(CoreError::new(ErrorCode::RunNotStarted, "Claim the queued discussion before settling a provider result."));
    }
    Ok(ProviderSettleStart::Proceed)
}

/// The writes a settled provider call commits, and whether its delivery
/// evidence shows the whole request reached the provider.
#[derive(Debug)]
pub struct ProviderSettlement {
    pub change: RunChange,
    pub delivered: bool,
}

/// A Codex call reports stdin evidence only: no HTTP receipt, no more bytes
/// than the frozen input, and all of it when the call completed.
pub open spec fn codex_delivery_refused(request: ProviderTerminalReport, len: u64) -> bool {
    let confirmed = counter_value(request.confirmed_stdin_bytes@);
    request.delivery is Some || confirmed > len || (request.status == ProviderOutcomeStatus::Completed && confirmed != len)
}

/// The checks between the delivery evidence and the event-ID lookup.
pub open spec fn output_error(run: DiscussionRun, request: ProviderTerminalReport, binding: ProviderBinding) -> Option<ErrorCode> {
    if binding.validation_error is Some {
        Some(ErrorCode::InvalidProviderBinding)
    } else if byte_len(request.assistant_text@) > binding.output_limit {
        Some(ErrorCode::OutputTooLarge)
    } else if final_output_error(run.output_text@, request.assistant_text@, true) is Some {
        final_output_error(run.output_text@, request.assistant_text@, true)
    } else if request.status == ProviderOutcomeStatus::Completed && (request.assistant_text@.len() == 0 || request.error is Some) {
        Some(ErrorCode::InvalidRequest)
    } else if version_value(request.expected_sequence@) != run.sequence {
        Some(ErrorCode::SequenceConflict)
    } else {
        None
    }
}

/// The checks after the event-ID lookup.
pub open spec fn commit_error(run: DiscussionRun, request: ProviderTerminalReport) -> Option<ErrorCode> {
    let status = settled_status(run.status, request.status, request.cleanup);
    if !terminal_message_ok(request, status) || run.sequence >= MAX_COUNTER
        || counter_value(request.confirmed_stdin_bytes@) > i64::MAX {
        Some(ErrorCode::InvalidRequest)
    } else {
        None
    }
}

/// The run settles with the provider's full answer as its output, one
/// terminal event and one assistant message tied to the run's packet.
pub open spec fn provider_settled(c: RunChange, run: DiscussionRun, request: ProviderTerminalReport, delivered: bool) -> bool {
    let status = settled_status(run.status, request.status, request.cleanup);
    let message = terminal_message(request, status);
    &&& same_identity(c.run, run)
    &&& c.run.status == status
    &&& c.run.sequence == run.sequence + 1
    &&& c.run.output_text@ == request.assistant_text@
    &&& opt_view(c.run.stop_reason) == settled_reason(run.status, request.status, request.cleanup)
    &&& c.run.dispatch_state == (if delivered { DispatchState::Delivered } else { run.dispatch_state })
    &&& c.event matches Some(ev) && ev.sequence == run.sequence + 1 && ev.event_id@ == request.event_id@
        && ev.kind == EventKind::Terminal && ev.chunk@ == message
    &&& c.message matches Some(m) && m.content@ == (if status == DiscussionRunStatus::Completed {
        request.assistant_text@ } else { terminal_content(request.assistant_text@, message) })
        && opt_view(m.packet_id) == Some(run.packet_id@)
}

/// The outcome once delivery is judged.
pub open spec fn settles_after_delivery(
    r: Result<ProviderSettlement, CoreError>,
    run: DiscussionRun,
    request: ProviderTerminalReport,
    binding: ProviderBinding,
    existing: Result<Option<ExistingEvent>, CoreError>,
    delivered: bool,
) -> bool {
    match output_error(run, request, binding) {
        Some(code) => fails_with(r, code),
        None => match existing {
            Err(e) => r == Err::<ProviderSettlement, CoreError>(e),
            Ok(Some(_)) => fails_with(r, ErrorCode::EventIdReused),
            Ok(None) => match commit_error(run, request) {
                Some(code) => fails_with(r, code),
                None => r matches Ok(s) && s.delivered == delivered && provider_settled(s.change, run, request, delivered),
            },
        },
    }
}

/// Settles a new provider report on its running or stopping run: the packet
/// must carry the report's binding, the delivery evidence must match the
/// transport and the frozen input, and the answer may extend but never
/// replace the output already streamed. `packet_binding` is the packet's
/// binding, `serialized_len` the length of its serialized input, `prepared`
/// the HTTP body it prepares (consulted for an HTTP binding), `app_server`
/// the app-server session's delivery verdict (consulted for an app-server
/// binding), and `existing` the read of any event already under the
/// report's event ID.
pub fn settle_provider_result(
    run: &DiscussionRun,
    request: &ProviderTerminalReport,
    facts: &ProviderFacts,
    packet_binding: &Option<ProviderBinding>,
    serialized_len: Result<u64, CoreError>,
    prepared: Result<HttpBody, CoreError>,
    app_server: Result<bool, CoreError>,
    existing: Result<Option<ExistingEvent>, CoreError>,
) -> (r: Result<ProviderSettlement, CoreError>)
    requires
        counter_ok(request.confirmed_stdin_bytes@),
        version_ok(request.expected_sequence@),
    ensures
        match packet_binding {
            None => fails_with(r, ErrorCode::ProviderBindingMissing),
            Some(b) => if !b.same(request.binding) {
                fails_with(r, ErrorCode::ProviderBindingMismatch)
            } else {
                match serialized_len {
                    Err(e) => r == Err::<ProviderSettlement, CoreError>(e),
                    Ok(len) => if is_app_server(*b) {
                        match app_server {
                            Err(e) => r == Err::<ProviderSettlement, CoreError>(e),
                            Ok(d) => settles_after_delivery(r, *run, *request, *b, existing, d),
                        }
                    } else if is_http(*b) {
                        match http_shape_error(request.delivery, request.status, facts.http_input_limit) {
                            Some(code) => fails_with(r, code),
                            None => match prepared {
                                Err(e) => r == Err::<ProviderSettlement, CoreError>(e),
                                Ok(body) => if !body_matches(request.delivery->0, body) {
                                    fails_with(r, ErrorCode::ProviderInputMismatch)
                                } else {
                                    settles_after_delivery(r, *run, *request, *b, existing, request.delivery->0.response_received)
                                },
                            },
                        }
                    } else if codex_delivery_refused(*request, len) {
                        fails_with(r, ErrorCode::ProviderInputMismatch)
                    } else {
                        settles_after_delivery(r, *run, *request, *b, existing,
                            counter_value(request.confirmed_stdin_bytes@) == len)
                    },
                }
            },
        },
{
    let binding = match packet_binding {
        Some(b) => b,
        None => return Err(CoreError::new(ErrorCode::ProviderBindingMissing, "This discussion was prepared for the local mock and cannot accept a live result.")),
    };
    if !binding.same_binding(&request.binding) {
        return Err(CoreError::new(ErrorCode::ProviderBindingMismatch, "The provider result does not match the immutable packet binding."));
    }
    let len = match serialized_len {
        Ok(l) => l,
        Err(e) => return Err(e),
    };
    let confirmed = match parse_decimal_u64(request.confirmed_stdin_bytes.as_str()) {
        Ok(v) => v,
        Err(e) => return Err(e),
    };
    let delivered = if binding.transport == ProviderTransport::AppServer {
        match app_server {
            Ok(d) => d,
            Err(e) => return Err(e),
        }
    } else if binding.transport == ProviderTransport::Http {
        if let Err(e) = validate_http_delivery(prepared, request, facts.http_input_limit) {
            return Err(e);
        }
        match &request.delivery {
            Some(d) => d.response_received,
            None => false,
        }
    } else {
        if request.delivery.is_some() || confirmed > len || (request.status == ProviderOutcomeStatus::Completed && confirmed != len) {
            return Err(CoreError::new(ErrorCode::ProviderInputMismatch, "The Codex provider reported invalid stdin delivery evidence."));
        }
        confirmed == len
    };
    if let Some(detail) = &binding.validation_error {
        return Err(CoreError::new(ErrorCode::InvalidProviderBinding, detail.as_str()));
    }
    if byte_length(request.assistant_text.as_str()) > binding.output_limit {
        return Err(CoreError::new(ErrorCode::OutputTooLarge, "The provider output exceeds the application byte cap."));
    }
    if let Err(e) = validate_final_output(run.output_text.as_str(), request.assistant_text.as_str(), true) {
        return Err(e);
    }
    if request.status == ProviderOutcomeStatus::Completed && request.assistant_text.as_str().is_empty() {
        return Err(CoreError::new(ErrorCode::InvalidRequest, "A completed provider result must include assistant output."));
    }
    if request.status == ProviderOutcomeStatus::Completed && request.error.is_some() {
        return Err(CoreError::new(ErrorCode::InvalidRequest, "A completed provider result cannot include a provider error."));
    }
    let expected = match parse_version(request.expected_sequence.as_str()) {
        Ok(v) => v,
        Err(e) => return Err(e),
    };
    if expected != run.sequence {
        return Err(CoreError::new(ErrorCode::SequenceConflict, "The provider result sequence is stale; reconcile the run before retrying."));
    }
    match existing {
        Err(e) => return Err(e),
        Ok(Some(_)) => return Err(CoreError::new(ErrorCode::EventIdReused, "The provider terminal event ID is already used by another event.")),
        Ok(None) => {},
    }
    let status = provider_discussion_status(run.status, request.status, request.cleanup);
    let reason = provider_stop_reason(run.status, request.status, request.cleanup);
    let message = match provider_terminal_message(request, status) {
        Ok(m) => m,
        Err(e) => return Err(e),
    };
    if run.sequence >= MAX_COUNTER {
        return Err(CoreError::new(ErrorCode::InvalidRequest, "The output sequence is exhausted."));
    }
    if confirmed > MAX_COUNTER {
        return Err(CoreError::new(ErrorCode::InvalidRequest, "The provider stdin byte count is too large."));
    }
    let next = run.sequence + 1;
    let mut settled = with_progress(run, status, next, request.assistant_text.clone());
    settled.stop_reason = match reason {
        Some(s) => Some(s.to_owned()),
        None => None,
    };
    if delivered {
        settled.dispatch_state = DispatchState::Delivered;
    }
    let content = if status == DiscussionRunStatus::Completed {
        request.assistant_text.clone()
    } else {
        terminal_content_text(request.assistant_text.as_str(), message.as_str())
    };
    let change = RunChange {
        run: settled,
        event: Some(OutputEvent { sequence: next, event_id: request.event_id.clone(), kind: EventKind::Terminal, chunk: message }),
        message: Some(AssistantMessage { content, packet_id: Some(run.packet_id.clone()) }),
    };
    Ok(ProviderSettlement { change, delivered })
}


// ---------------------------------------------------------------------- laws

/// A settled provider call ends the run for good and keeps every chunk
/// already streamed: the run is terminal, its sequence advances by one, and
/// the streamed output is a prefix of the settled output.
pub proof fn law_provider_settlement_keeps_output(
    c: RunChange,
    run: DiscussionRun,
    request: ProviderTerminalReport,
    binding: ProviderBinding,
    delivered: bool,
)
    requires
        output_error(run, request, binding) is None,
        provider_settled(c, run, request, delivered),
    ensures
        c.run.status.spec_terminal(),
        c.run.sequence == run.sequence + 1,
        run.output_text@.is_prefix_of(c.run.output_text@),
{
}


// ------------------------------------------------------------ stored results

/// A stored provider result row, with its serialized parts read back.
#[derive(Debug)]
pub struct StoredProviderRow {
    pub run_id: String,
    pub packet_id: String,
    pub event_id: String,
    pub expected_sequence: i64,
    pub binding: ProviderBinding,
    pub assistant_text: String,
    pub status: ProviderOutcomeStatus,
    pub confirmed_stdin_bytes: i64,
    pub usage: Option<String>,
    pub cleanup: ProviderCleanup,
    pub error: Option<String>,
    pub effective_identity: Option<String>,
    pub reported_model: Option<String>,
    pub delivery: Option<ProviderDeliveryReceipt>,
    pub app_server: Option<AppServerReceipt>,
}

/// The checks before the transport evidence.
pub open spec fn stored_identity_error(run_id: Seq<char>, packet_id: Seq<char>, row: StoredProviderRow, facts: ProviderFacts) -> bool {
    ||| row.run_id@ != run_id || row.packet_id@ != packet_id
    ||| row.binding.validation_error is Some
    ||| row.confirmed_stdin_bytes < 0
    ||| row.expected_sequence < 0
    ||| reported_model_refused(row.binding, row.status, row.reported_model, facts.reported_model_known)
}

/// The bounded terminal contract a stored result keeps, whatever its transport.
pub open spec fn stored_terminal_ok(row: StoredProviderRow) -> bool {
    &&& byte_len(row.assistant_text@) <= row.binding.output_limit
    &&& !(row.status == ProviderOutcomeStatus::Completed && row.assistant_text@.len() == 0)
    &&& !(row.status == ProviderOutcomeStatus::Completed && row.error is Some)
    &&& (row.error matches Some(e) ==> sanitized_error(e@))
    &&& row.effective_identity is None
}

/// The Codex transport's evidence: stdin bytes only, within the caps.
pub open spec fn stored_codex_ok(row: StoredProviderRow, facts: ProviderFacts) -> bool {
    row.delivery is None && byte_len(row.assistant_text@) <= facts.codex_output_limit
        && row.confirmed_stdin_bytes <= row.binding.input_limit
}

/// The result a valid stored row reads back as.
pub open spec fn read_back(r: ProviderResult, row: StoredProviderRow) -> bool {
    &&& r.run_id == row.run_id && r.event_id == row.event_id && r.assistant_text == row.assistant_text
    &&& r.binding == row.binding && r.status == row.status && r.usage == row.usage && r.cleanup == row.cleanup
    &&& r.error == row.error && r.effective_identity == row.effective_identity && r.reported_model == row.reported_model
    &&& r.delivery == row.delivery && r.app_server == row.app_server
    &&& r.expected_sequence@ == decimal_chars(row.expected_sequence as nat)
    &&& r.confirmed_stdin_bytes@ == decimal_chars(row.confirmed_stdin_bytes as nat)
}

/// Checks a stored provider result against the run and packet it belongs
/// to, its binding's transport evidence and the bounded terminal contract,
/// and reads it back. `app_server` is the app-server session's verdict on
/// its delivery evidence (consulted for an app-server binding) and
/// `prepared` the HTTP body the packet prepares (consulted for an HTTP one).
pub fn check_stored_provider_result(
    run_id: &str,
    packet_id: &str,
    row: StoredProviderRow,
    facts: &ProviderFacts,
    packet_binding: &Option<ProviderBinding>,
    app_server: Result<(), CoreError>,
    prepared: Result<HttpBody, CoreError>,
) -> (r: Result<ProviderResult, CoreError>)
    ensures
        stored_identity_error(run_id@, packet_id@, row, *facts) ==> fails_with(r, ErrorCode::InvalidProject),
        !stored_identity_error(run_id@, packet_id@, row, *facts) ==> {
            let transport_ok = if is_app_server(row.binding) {
                row.confirmed_stdin_bytes == 0 && row.delivery is None && app_server is Ok
            } else if row.app_server is Some {
                false
            } else if is_http(row.binding) {
                row.confirmed_stdin_bytes == 0 && row.delivery is Some
                    && http_shape_error(row.delivery, ProviderOutcomeStatus::Failed, facts.http_input_limit) is None
                    && (packet_binding matches Some(p) && p.same(row.binding))
                    && prepared is Ok && body_matches(row.delivery->0, prepared->Ok_0)
                    && !(row.status == ProviderOutcomeStatus::Completed && !row.delivery->0.response_received)
            } else {
                stored_codex_ok(row, *facts)
            };
            &&& (transport_ok && stored_terminal_ok(row) <==> r is Ok)
            &&& (r matches Ok(result) ==> read_back(result, row))
            &&& (r matches Err(e) ==> e.code == ErrorCode::InvalidProject || (is_http(row.binding) && e.code == ErrorCode::InvalidRequest)
                || app_server == Err::<(), CoreError>(e) || prepared == Err::<HttpBody, CoreError>(e))
        },
{
    if !str_eq(row.run_id.as_str(), run_id) || !str_eq(row.packet_id.as_str(), packet_id) {
        return Err(CoreError::new(ErrorCode::InvalidProject, "The saved provider result belongs to a different run or packet."));
    }
    if let Some(detail) = &row.binding.validation_error {
        return Err(CoreError::new(ErrorCode::InvalidProject, detail.as_str()));
    }
    if row.confirmed_stdin_bytes < 0 {
        return Err(CoreError::new(ErrorCode::InvalidProject, "The saved provider stdin byte count is negative."));
    }
    if row.expected_sequence < 0 {
        return Err(CoreError::new(ErrorCode::InvalidProject, "The saved provider result has an invalid expected sequence."));
    }
    let reported = match &row.reported_model {
        Some(m) => Some(m),
        None => None,
    };
    if let Err(e) = validate_reported_model(&row.binding, row.status, reported, facts.reported_model_known, true) {
        return Err(e);
    }
    let confirmed = row.confirmed_stdin_bytes as u64;
    if row.binding.transport == ProviderTransport::AppServer {
        if confirmed != 0 || row.delivery.is_some() {
            return Err(CoreError::new(ErrorCode::InvalidProject, "App-server results cannot claim exec or HTTP delivery."));
        }
        if let Err(e) = app_server {
            return Err(e);
        }
    } else if row.app_server.is_some() {
        return Err(CoreError::new(ErrorCode::InvalidProject, "Only app-server results can retain app-server delivery."));
    } else if row.binding.transport == ProviderTransport::Http {
        if confirmed != 0 {
            return Err(CoreError::new(ErrorCode::InvalidProject, "An HTTP provider result must retain a zero Codex stdin count."));
        }
        let delivery = match &row.delivery {
            Some(d) => Some(d),
            None => None,
        };
        if let Err(e) = validate_stored_http_delivery(packet_binding, &row.binding, delivery, prepared, facts.http_input_limit) {
            return Err(e);
        }
        let received = match &row.delivery {
            Some(d) => d.response_received,
            None => false,
        };
        if row.status == ProviderOutcomeStatus::Completed && !received {
            return Err(CoreError::new(ErrorCode::InvalidProject, "A completed HTTP provider result needs complete response evidence."));
        }
    } else if row.delivery.is_some() || byte_length(row.assistant_text.as_str()) as u64 > facts.codex_output_limit
        || confirmed > row.binding.input_limit as u64 {
        return Err(CoreError::new(ErrorCode::InvalidProject, "The saved Codex provider result has invalid transport evidence."));
    }
    let error_ok = match &row.error {
        Some(e) => is_sanitized_error(e.as_str()),
        None => true,
    };
    if byte_length(row.assistant_text.as_str()) > row.binding.output_limit
        || (row.status == ProviderOutcomeStatus::Completed && row.assistant_text.as_str().is_empty())
        || (row.status == ProviderOutcomeStatus::Completed && row.error.is_some())
        || !error_ok || row.effective_identity.is_some() {
        return Err(CoreError::new(ErrorCode::InvalidProject, "The saved provider result violates the bounded terminal contract."));
    }
    let expected_sequence = decimal_text(row.expected_sequence as u64);
    let confirmed_text = decimal_text(confirmed);
    Ok(ProviderResult {
        run_id: row.run_id,
        event_id: row.event_id,
        expected_sequence,
        assistant_text: row.assistant_text,
        binding: row.binding,
        status: row.status,
        confirmed_stdin_bytes: confirmed_text,
        usage: row.usage,
        cleanup: row.cleanup,
        error: row.error,
        effective_identity: row.effective_identity,
        reported_model: row.reported_model,
        delivery: row.delivery,
        app_server: row.app_server,
    })
}

// ------------------------------------------------------ stored settlements

/// A stored provider result and the run it settled, as backup validation
/// reads them.
#[derive(Debug)]
pub struct SettledRunRow {
    pub result: ProviderResult,
    /// What checking the result against its packet (binding and transport
    /// evidence) gave.
    pub evidence: Result<(), CoreError>,
    pub run_status: DiscussionRunStatus,
    pub run_sequence: i64,
    pub run_output: String,
    /// The kind and sequence of the output event stored under the result's
    /// event ID, if any.
    pub event: Option<(EventKind, i64)>,
}

/// The run statuses a provider outcome may have settled into.
pub open spec fn outcome_allows(status: ProviderOutcomeStatus, cleanup: ProviderCleanup, run: DiscussionRunStatus) -> bool {
    if cleanup == ProviderCleanup::Unresolved {
        run == DiscussionRunStatus::Interrupted
    } else {
        match status {
            ProviderOutcomeStatus::Completed => run == DiscussionRunStatus::Completed || run == DiscussionRunStatus::Stopped,
            ProviderOutcomeStatus::Stopped => run == DiscussionRunStatus::Stopped,
            _ => run == DiscussionRunStatus::Failed || run == DiscussionRunStatus::Stopped,
        }
    }
}

/// A stored provider result is the settlement of its terminal run: the run
/// is no longer active, its output is the result's text, its sequence is one
/// past the result's expected sequence, a terminal event under the result's
/// event ID sits at that sequence, and the run's status is one the outcome
/// allows (an unresolved cleanup leaves it interrupted).
pub open spec fn settled_row_ok(row: SettledRunRow) -> bool {
    &&& row.evidence is Ok
    &&& !row.run_status.spec_active()
    &&& row.run_output@ == row.result.assistant_text@
    &&& version_ok(row.result.expected_sequence@)
    &&& row.run_sequence == version_value(row.result.expected_sequence@) + 1
    &&& row.event == Some((EventKind::Terminal, row.run_sequence))
    &&& outcome_allows(row.result.status, row.result.cleanup, row.run_status)
}

fn outcome_allows_exec(status: ProviderOutcomeStatus, cleanup: ProviderCleanup, run: DiscussionRunStatus) -> (r: bool)
    ensures
        r == outcome_allows(status, cleanup, run),
{
    if cleanup == ProviderCleanup::Unresolved {
        run == DiscussionRunStatus::Interrupted
    } else {
        match status {
            ProviderOutcomeStatus::Completed => run == DiscussionRunStatus::Completed || run == DiscussionRunStatus::Stopped,
            ProviderOutcomeStatus::Stopped => run == DiscussionRunStatus::Stopped,
            _ => run == DiscussionRunStatus::Failed || run == DiscussionRunStatus::Stopped,
        }
    }
}

/// Checks one stored provider result against its terminal run.
pub fn check_settled_run(row: &SettledRunRow) -> (r: Result<(), CoreError>)
    ensures
        r is Ok <==> settled_row_ok(*row),
        r matches Err(e) ==> row.evidence == Err::<(), CoreError>(e) || e.code == ErrorCode::InvalidProject
            || e.code == ErrorCode::InvalidRequest,
{
    if let Err(e) = &row.evidence {
        return Err(e.clone());
    }
    if row.run_status.active() || !str_eq(row.run_output.as_str(), row.result.assistant_text.as_str()) {
        return Err(CoreError::new(ErrorCode::InvalidProject, "A provider result does not match its terminal discussion run."));
    }
    let expected = match parse_version(row.result.expected_sequence.as_str()) {
        Ok(v) => v,
        Err(e) => return Err(e),
    };
    if expected >= 9223372036854775807u64 || row.run_sequence < 0 || row.run_sequence as u64 != expected + 1 {
        return Err(CoreError::new(ErrorCode::InvalidProject, "A provider result has an invalid terminal sequence."));
    }
    let terminal_here = match row.event {
        Some((kind, sequence)) => kind == EventKind::Terminal && sequence == row.run_sequence,
        None => false,
    };
    if !terminal_here {
        return Err(CoreError::new(ErrorCode::InvalidProject, "A provider result has no matching immutable terminal event."));
    }
    if !outcome_allows_exec(row.result.status, row.result.cleanup, row.run_status) {
        return Err(CoreError::new(ErrorCode::InvalidProject, "A provider result outcome does not match its terminal run status."));
    }
    Ok(())
}

/// A stored run, as the check that completed runs keep their provider
/// result reads it.
#[derive(Debug)]
pub struct StoredRunRow {
    pub status: DiscussionRunStatus,
    /// Whether the run's validated packet carries a provider binding.
    pub packet_binding: Result<bool, CoreError>,
    pub has_result: bool,
}

/// A completed run whose packet carries a provider binding keeps its
/// provider result.
pub open spec fn stored_run_ok(row: StoredRunRow) -> bool {
    row.status == DiscussionRunStatus::Completed ==> (row.packet_binding matches Ok(b) && (b ==> row.has_result))
}

/// The provider results of a project hold together: every stored result is
/// the settlement of its terminal run, and every completed run whose packet
/// carries a provider binding has its result.
pub fn validate_provider_results(settled: &Vec<SettledRunRow>, runs: &Vec<StoredRunRow>) -> (r: Result<(), CoreError>)
    ensures
        r is Ok <==> (forall|i: int| 0 <= i < settled@.len() ==> settled_row_ok(#[trigger] settled@[i]))
            && (forall|j: int| 0 <= j < runs@.len() ==> stored_run_ok(#[trigger] runs@[j])),
        r is Ok ==> forall|i: int| 0 <= i < settled@.len() ==> {
            let row = #[trigger] settled@[i];
            &&& !row.run_status.spec_active()
            &&& row.run_output@ == row.result.assistant_text@
            &&& row.run_sequence == version_value(row.result.expected_sequence@) + 1
            &&& row.event == Some((EventKind::Terminal, row.run_sequence))
            &&& (row.result.cleanup == ProviderCleanup::Unresolved ==> row.run_status == DiscussionRunStatus::Interrupted)
        },
{
    let n = settled.len();
    let mut i: usize = 0;
    while i < n
        invariant
            n == settled@.len(),
            0 <= i <= n,
            forall|k: int| 0 <= k < i ==> settled_row_ok(#[trigger] settled@[k]),
        decreases n - i,
    {
        if let Err(e) = check_settled_run(&settled[i]) {
            return Err(e);
        }
        i += 1;
    }
    let m = runs.len();
    let mut j: usize = 0;
    while j < m
        invariant
            m == runs@.len(),
            0 <= j <= m,
            forall|k: int| 0 <= k < settled@.len() ==> settled_row_ok(#[trigger] settled@[k]),
            forall|k: int| 0 <= k < j ==> stored_run_ok(#[trigger] runs@[k]),
        decreases m - j,
    {
        let run = &runs[j];
        if run.status == DiscussionRunStatus::Completed {
            match &run.packet_binding {
                Err(e) => return Err(e.clone()),
                Ok(b) => {
                    if *b && !run.has_result {
                        return Err(CoreError::new(ErrorCode::InvalidProject, "A completed live discussion is missing its immutable provider result."));
                    }
                },
            }
        }
        j += 1;
    }
    Ok(())
}

/// A provider settlement always leaves its run in a status the stored
/// result's outcome allows, the same rule backup validation enforces
/// (`check_settled_run`): whatever the active run's status, the settled
/// run is terminal, and in particular a call the provider reports stopped,
/// with its cleanup settled, ends the run stopped; an unresolved cleanup
/// ends it interrupted.
pub proof fn law_provider_settlement_is_storable(current: DiscussionRunStatus, outcome: ProviderOutcomeStatus, cleanup: ProviderCleanup)
    requires
        current == DiscussionRunStatus::Running || current == DiscussionRunStatus::Stopping,
    ensures
        outcome_allows(outcome, cleanup, settled_status(current, outcome, cleanup)),
        !settled_status(current, outcome, cleanup).spec_active(),
        outcome == ProviderOutcomeStatus::Stopped && cleanup == ProviderCleanup::Settled
            ==> settled_status(current, outcome, cleanup) == DiscussionRunStatus::Stopped,
        cleanup == ProviderCleanup::Unresolved ==> settled_status(current, outcome, cleanup) == DiscussionRunStatus::Interrupted,
        cleanup == ProviderCleanup::Settled && current == DiscussionRunStatus::Stopping
            ==> settled_status(current, outcome, cleanup) == DiscussionRunStatus::Stopped,
        cleanup == ProviderCleanup::Settled && current == DiscussionRunStatus::Running && outcome == ProviderOutcomeStatus::Completed
            ==> settled_status(current, outcome, cleanup) == DiscussionRunStatus::Completed,
        cleanup == ProviderCleanup::Settled && current == DiscussionRunStatus::Running
            && (outcome == ProviderOutcomeStatus::Failed || outcome == ProviderOutcomeStatus::TimedOut
                || outcome == ProviderOutcomeStatus::OutputLimit)
            ==> settled_status(current, outcome, cleanup) == DiscussionRunStatus::Failed,
{
}

} // verus!
