use conversation::provider::{validate_provider_results, StoredRunRow};
use conversation::error::ErrorCode;
use conversation::provider::{
    provider_discussion_status, provider_stop_reason, provider_terminal_message, settle_provider_result,
    validate_http_delivery_shape, validate_provider_report_shape, HttpBody, ProviderDeliveryReceipt,
    ProviderFacts, ProviderTerminalReport,
};
use conversation::vocab::{
    DiscussionRun, DiscussionRunStatus, DispatchState, ProviderBinding, ProviderCleanup,
    ProviderOutcomeStatus, ProviderTransport, RunOwner,
};

fn owner() -> RunOwner {
    RunOwner { project_id: "project".into(), operation_namespace: "namespace".into(), run_id: "run-1".into() }
}

fn binding(transport: ProviderTransport) -> ProviderBinding {
    ProviderBinding {
        canonical_json: "{\"transport\":\"exec\"}".into(),
        transport,
        model_reporting: false,
        model_id: "model".into(),
        validation_error: None,
        output_limit: 1000,
        input_limit: 1000,
    }
}

fn facts() -> ProviderFacts {
    ProviderFacts { codex_input_limit: 5000, codex_output_limit: 5000, http_input_limit: 5000, reported_model_known: true }
}

fn report(status: ProviderOutcomeStatus, text: &str, stdin: &str) -> ProviderTerminalReport {
    ProviderTerminalReport {
        owner: owner(),
        event_id: "terminal-1".into(),
        expected_sequence: "2".into(),
        assistant_text: text.into(),
        binding: binding(ProviderTransport::Exec),
        status,
        confirmed_stdin_bytes: stdin.into(),
        usage: None,
        cleanup: ProviderCleanup::Settled,
        error: None,
        effective_identity: None,
        reported_model: None,
        delivery: None,
        app_server: None,
    }
}

fn live_run(status: DiscussionRunStatus, output: &str) -> DiscussionRun {
    DiscussionRun {
        id: "run-1".into(),
        thread_id: "thread".into(),
        owner: owner(),
        packet_id: "packet-1".into(),
        provider_binding: Some(binding(ProviderTransport::Exec)),
        lookup: None,
        status,
        dispatch_state: DispatchState::Claimed,
        sequence: 2,
        output_text: output.into(),
        stop_reason: None,
    }
}

fn no_body() -> Result<HttpBody, conversation::error::CoreError> {
    Ok(HttpBody { body_hash: String::new(), body_bytes: String::new() })
}

#[test]
fn the_provider_outcome_decides_the_run_status() {
    assert_eq!(provider_discussion_status(DiscussionRunStatus::Running, ProviderOutcomeStatus::Completed, ProviderCleanup::Settled), DiscussionRunStatus::Completed);
    assert_eq!(provider_discussion_status(DiscussionRunStatus::Running, ProviderOutcomeStatus::TimedOut, ProviderCleanup::Settled), DiscussionRunStatus::Failed);
    assert_eq!(provider_discussion_status(DiscussionRunStatus::Stopping, ProviderOutcomeStatus::Completed, ProviderCleanup::Settled), DiscussionRunStatus::Stopped);
    assert_eq!(provider_discussion_status(DiscussionRunStatus::Running, ProviderOutcomeStatus::Completed, ProviderCleanup::Unresolved), DiscussionRunStatus::Interrupted);
    assert_eq!(provider_stop_reason(DiscussionRunStatus::Running, ProviderOutcomeStatus::Completed, ProviderCleanup::Settled), None);
    assert_eq!(provider_stop_reason(DiscussionRunStatus::Running, ProviderOutcomeStatus::OutputLimit, ProviderCleanup::Settled), Some("provider_output_limit"));
    assert_eq!(provider_stop_reason(DiscussionRunStatus::Stopping, ProviderOutcomeStatus::Failed, ProviderCleanup::Settled), Some("author_stopped"));
    assert_eq!(provider_stop_reason(DiscussionRunStatus::Running, ProviderOutcomeStatus::Failed, ProviderCleanup::Unresolved), Some("provider_cleanup_unresolved"));
}

#[test]
fn terminal_messages_explain_the_ending() {
    let timed_out = report(ProviderOutcomeStatus::TimedOut, "", "0");
    assert_eq!(provider_terminal_message(&timed_out, DiscussionRunStatus::Failed).unwrap(), "The provider request timed out.");
    let mut failed = report(ProviderOutcomeStatus::Failed, "", "0");
    failed.error = Some("quota exhausted".into());
    assert_eq!(
        provider_terminal_message(&failed, DiscussionRunStatus::Failed).unwrap(),
        "Provider request failed: quota exhausted"
    );
    let done = report(ProviderOutcomeStatus::Completed, "answer", "10");
    assert_eq!(provider_terminal_message(&done, DiscussionRunStatus::Completed).unwrap(), "answer");
}

#[test]
fn http_delivery_evidence_is_checked() {
    let ok = ProviderDeliveryReceipt { body_hash: "a".repeat(64), body_bytes: "120".into(), response_received: true };
    assert!(validate_http_delivery_shape(Some(&ok), ProviderOutcomeStatus::Completed, 200).is_ok());
    assert_eq!(validate_http_delivery_shape(None, ProviderOutcomeStatus::Completed, 200).unwrap_err().code, ErrorCode::InvalidRequest);
    assert_eq!(validate_http_delivery_shape(Some(&ok), ProviderOutcomeStatus::Completed, 100).unwrap_err().code, ErrorCode::InvalidRequest);
    let partial = ProviderDeliveryReceipt { response_received: false, ..ok };
    assert_eq!(validate_http_delivery_shape(Some(&partial), ProviderOutcomeStatus::Completed, 200).unwrap_err().code, ErrorCode::InvalidRequest);
    assert!(validate_http_delivery_shape(Some(&partial), ProviderOutcomeStatus::Failed, 200).is_ok());
}

#[test]
fn report_shape_follows_the_transport() {
    assert!(validate_provider_report_shape(&report(ProviderOutcomeStatus::Completed, "x", "10"), &facts()).is_ok());
    assert_eq!(
        validate_provider_report_shape(&report(ProviderOutcomeStatus::Completed, "x", "6000"), &facts()).unwrap_err().code,
        ErrorCode::InputTooLarge
    );
    let mut claimed = report(ProviderOutcomeStatus::Completed, "x", "10");
    claimed.effective_identity = Some("someone".into());
    assert_eq!(validate_provider_report_shape(&claimed, &facts()).unwrap_err().code, ErrorCode::InvalidRequest);
    let mut invalid = report(ProviderOutcomeStatus::Completed, "x", "10");
    invalid.binding.validation_error = Some("bad binding".into());
    assert_eq!(validate_provider_report_shape(&invalid, &facts()).unwrap_err().code, ErrorCode::InvalidProviderBinding);
}

#[test]
fn a_completed_call_settles_with_the_full_answer() {
    let request = report(ProviderOutcomeStatus::Completed, "partial and the rest", "300");
    let settled = settle_provider_result(
        &live_run(DiscussionRunStatus::Running, "partial"),
        &request,
        &facts(),
        &Some(binding(ProviderTransport::Exec)),
        Ok(300),
        no_body(),
        Ok(false),
        Ok(None),
    )
    .unwrap();
    assert!(settled.delivered);
    let c = settled.change;
    assert_eq!(c.run.status, DiscussionRunStatus::Completed);
    assert_eq!(c.run.dispatch_state, DispatchState::Delivered);
    assert_eq!(c.run.output_text, "partial and the rest");
    assert_eq!(c.run.sequence, 3);
    let m = c.message.unwrap();
    assert_eq!(m.content, "partial and the rest");
    assert_eq!(m.packet_id.as_deref(), Some("packet-1"));
}

#[test]
fn a_settlement_never_replaces_streamed_output_or_the_binding() {
    let request = report(ProviderOutcomeStatus::Completed, "different", "300");
    let run = live_run(DiscussionRunStatus::Running, "partial");
    let conflict = settle_provider_result(&run, &request, &facts(), &Some(binding(ProviderTransport::Exec)), Ok(300), no_body(), Ok(false), Ok(None));
    assert_eq!(conflict.unwrap_err().code, ErrorCode::OutputConflict);
    let missing = settle_provider_result(&run, &request, &facts(), &None, Ok(300), no_body(), Ok(false), Ok(None));
    assert_eq!(missing.unwrap_err().code, ErrorCode::ProviderBindingMissing);
    let mut other = binding(ProviderTransport::Exec);
    other.canonical_json = "{\"transport\":\"other\"}".into();
    let mismatch = settle_provider_result(&run, &request, &facts(), &Some(other), Ok(300), no_body(), Ok(false), Ok(None));
    assert_eq!(mismatch.unwrap_err().code, ErrorCode::ProviderBindingMismatch);
    let short = report(ProviderOutcomeStatus::Completed, "partial more", "299");
    let undelivered = settle_provider_result(&run, &short, &facts(), &Some(binding(ProviderTransport::Exec)), Ok(300), no_body(), Ok(false), Ok(None));
    assert_eq!(undelivered.unwrap_err().code, ErrorCode::ProviderInputMismatch);
}

fn stored_result(status: ProviderOutcomeStatus, cleanup: ProviderCleanup, text: &str) -> conversation::provider::ProviderResult {
    conversation::provider::ProviderResult {
        run_id: "run-1".into(),
        event_id: "terminal-1".into(),
        expected_sequence: "2".into(),
        assistant_text: text.into(),
        binding: binding(ProviderTransport::Exec),
        status,
        confirmed_stdin_bytes: "10".into(),
        usage: None,
        cleanup,
        error: None,
        effective_identity: None,
        reported_model: None,
        delivery: None,
        app_server: None,
    }
}

fn settled_row(run_status: DiscussionRunStatus, cleanup: ProviderCleanup, sequence: i64) -> conversation::provider::SettledRunRow {
    conversation::provider::SettledRunRow {
        result: stored_result(ProviderOutcomeStatus::Completed, cleanup, "answer"),
        evidence: Ok(()),
        run_status,
        run_sequence: sequence,
        run_output: "answer".into(),
        event: Some((conversation::vocab::EventKind::Terminal, sequence)),
    }
}

#[test]
fn stored_provider_results_are_the_settlements_of_their_runs() {
    let good = vec![settled_row(DiscussionRunStatus::Completed, ProviderCleanup::Settled, 3)];
    let runs = vec![
        StoredRunRow { status: DiscussionRunStatus::Completed, packet_binding: Ok(true), has_result: true },
        StoredRunRow { status: DiscussionRunStatus::Failed, packet_binding: Ok(true), has_result: false },
        StoredRunRow { status: DiscussionRunStatus::Completed, packet_binding: Ok(false), has_result: false },
    ];
    assert!(validate_provider_results(&good, &runs).is_ok());
    for bad in [
        settled_row(DiscussionRunStatus::Running, ProviderCleanup::Settled, 3),
        settled_row(DiscussionRunStatus::Completed, ProviderCleanup::Settled, 4),
        settled_row(DiscussionRunStatus::Completed, ProviderCleanup::Unresolved, 3),
        settled_row(DiscussionRunStatus::Failed, ProviderCleanup::Settled, 3),
    ] {
        assert_eq!(validate_provider_results(&vec![bad], &runs).unwrap_err().code, ErrorCode::InvalidProject);
    }
    assert!(validate_provider_results(&vec![settled_row(DiscussionRunStatus::Interrupted, ProviderCleanup::Unresolved, 3)], &runs).is_ok());
    let missing = vec![StoredRunRow { status: DiscussionRunStatus::Completed, packet_binding: Ok(true), has_result: false }];
    assert_eq!(validate_provider_results(&good, &missing).unwrap_err().code, ErrorCode::InvalidProject);
}
