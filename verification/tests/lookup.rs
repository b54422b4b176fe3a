use conversation::error::{CoreError, ErrorCode};
use conversation::lookup_storage::{authorize_envelope, plan_store_read, select_passages, ReadStore};
use conversation::lookup::{
    advance_lookup, claim_invocation, claim_lookup_invocation, halt_lookup, lookup_failure_reason,
    mark_chain_stopped, outcome_state, parse_lookup_ordinal, InvocationIdentity, LookupAdvanceRequest,
    LookupAdvanceStep, LookupClaim, LookupEpochs, LookupHaltRequest, LookupInvocationState, ResponseKind,
};
use conversation::vocab::{
    DiscussionRun, DiscussionRunStatus, DispatchState, LookupAllowance, ProjectInfo,
    ProviderCleanup, ProviderOutcomeStatus, RunOwner, RunStep,
};

fn info() -> ProjectInfo {
    ProjectInfo { project_id: "project".into(), operation_namespace: "namespace".into() }
}

fn owner() -> RunOwner {
    RunOwner { project_id: "project".into(), operation_namespace: "namespace".into(), run_id: "run-7".into() }
}

fn allowance(max_additional: u8, input: &str, output: &str) -> LookupAllowance {
    LookupAllowance {
        max_additional_invocations: max_additional,
        total_input_bytes: input.into(),
        total_output_bytes: output.into(),
        validation_error: None,
    }
}

fn lookup_run(status: DiscussionRunStatus, sequence: u64) -> DiscussionRun {
    DiscussionRun {
        id: "run-7".into(),
        thread_id: "thread".into(),
        owner: owner(),
        packet_id: "packet".into(),
        provider_binding: None,
        lookup: Some(allowance(2, "1000", "1000")),
        status,
        dispatch_state: DispatchState::Claimed,
        sequence,
        output_text: String::new(),
        stop_reason: None,
    }
}

fn identity(state: LookupInvocationState, source_epoch: i64) -> InvocationIdentity {
    InvocationIdentity {
        run_id: "run-7".into(),
        ordinal: 0,
        packet_id: "packet".into(),
        snapshot_id: "snapshot".into(),
        project_id: "project".into(),
        operation_namespace: "namespace".into(),
        source_epoch,
        policy_epoch: 1,
        allowance: allowance(2, "1000", "500"),
        state,
        expected_sequence: 0,
    }
}

#[test]
fn stopping_a_chain_settles_every_invocation() {
    let stopped = mark_chain_stopped(&vec![LookupInvocationState::Prepared, LookupInvocationState::Claimed, LookupInvocationState::NeedsContext, LookupInvocationState::Completed, LookupInvocationState::Failed]);
    assert_eq!(stopped, vec![LookupInvocationState::Stopped, LookupInvocationState::Unknown, LookupInvocationState::NeedsContext, LookupInvocationState::Completed, LookupInvocationState::Failed]);
    assert_eq!(mark_chain_stopped(&stopped), stopped);
}

#[test]
fn ordinals_are_zero_one_or_two() {
    assert_eq!(parse_lookup_ordinal("0").unwrap(), 0);
    assert_eq!(parse_lookup_ordinal("2").unwrap(), 2);
    assert_eq!(parse_lookup_ordinal("3").unwrap_err().code, ErrorCode::InvalidLookupCounter);
    assert_eq!(parse_lookup_ordinal("01").unwrap_err().code, ErrorCode::InvalidRequest);
}

#[test]
fn outcome_states_follow_the_parsed_reply() {
    assert_eq!(outcome_state(Some(ResponseKind::NeedsContext), ProviderOutcomeStatus::Completed, ProviderCleanup::Settled), LookupInvocationState::NeedsContext);
    assert_eq!(outcome_state(Some(ResponseKind::Discussion), ProviderOutcomeStatus::Completed, ProviderCleanup::Settled), LookupInvocationState::Completed);
    assert_eq!(outcome_state(None, ProviderOutcomeStatus::Stopped, ProviderCleanup::Settled), LookupInvocationState::Stopped);
    assert_eq!(outcome_state(None, ProviderOutcomeStatus::TimedOut, ProviderCleanup::Settled), LookupInvocationState::Failed);
    assert_eq!(outcome_state(None, ProviderOutcomeStatus::Stopped, ProviderCleanup::Unresolved), LookupInvocationState::Unknown);
    assert_eq!(lookup_failure_reason(ProviderOutcomeStatus::Stopped, ProviderCleanup::Unresolved), "lookup_cleanup_unresolved");
    assert_eq!(lookup_failure_reason(ProviderOutcomeStatus::TimedOut, ProviderCleanup::Settled), "lookup_timed_out");
}

#[test]
fn halting_seals_an_active_lookup_run_once() {
    let request = LookupHaltRequest { owner: owner(), reason: "Author closed the panel.".into() };
    let chained = halt_lookup(&info(), &request, Ok(lookup_run(DiscussionRunStatus::Running, 4))).unwrap();
    assert!(chained.stop_chain);
    let c = match chained.step {
        RunStep::Changed(c) => c,
        RunStep::Replayed(_) => panic!("an active run is sealed"),
    };
    assert_eq!(c.run.status, DiscussionRunStatus::Interrupted);
    assert_eq!(c.run.stop_reason.as_deref(), Some("lookup_halted"));
    let ev = c.event.unwrap();
    assert_eq!(ev.event_id, "lookup-halt-4");
    assert_eq!(ev.sequence, 5);
    assert_eq!(ev.chunk, "Author closed the panel.");
    let again = halt_lookup(&info(), &request, Ok(c.run)).unwrap();
    assert!(!again.stop_chain);
    assert!(matches!(again.step, RunStep::Replayed(r) if r.status == DiscussionRunStatus::Interrupted));
}

#[test]
fn halting_requires_a_lookup_run_and_a_reason() {
    let blank = LookupHaltRequest { owner: owner(), reason: "  ".into() };
    assert_eq!(
        halt_lookup(&info(), &blank, Ok(lookup_run(DiscussionRunStatus::Running, 0))).unwrap_err().code,
        ErrorCode::InvalidRequest
    );
    let request = LookupHaltRequest { owner: owner(), reason: "stop".into() };
    let mut plain = lookup_run(DiscussionRunStatus::Running, 0);
    plain.lookup = None;
    assert_eq!(halt_lookup(&info(), &request, Ok(plain)).unwrap_err().code, ErrorCode::LookupNotEnabled);
}

#[test]
fn a_stale_context_refuses_the_claim_and_seals_the_run() {
    let epochs = LookupEpochs { snapshot_source_epoch: 1, snapshot_policy_epoch: 1, source_epoch: 2, policy_epoch: 1 };
    match claim_lookup_invocation(&info(), &owner(), "1", Ok(lookup_run(DiscussionRunStatus::Running, 3)), Ok(epochs)).unwrap() {
        LookupClaim::Stale(chained) => {
            assert!(chained.stop_chain);
            let c = match chained.step {
                RunStep::Changed(c) => c,
                RunStep::Replayed(_) => panic!("a stale claim seals the run"),
            };
            assert_eq!(c.run.status, DiscussionRunStatus::Failed);
            assert_eq!(c.event.unwrap().event_id, "lookup-stale-run-7-1");
        }
        LookupClaim::Proceed(_) => panic!("the story changed"),
    }
    let current = LookupEpochs { source_epoch: 1, ..epochs };
    assert!(matches!(
        claim_lookup_invocation(&info(), &owner(), "1", Ok(lookup_run(DiscussionRunStatus::Running, 3)), Ok(current)).unwrap(),
        LookupClaim::Proceed(1)
    ));
    assert_eq!(
        claim_lookup_invocation(&info(), &owner(), "1", Ok(lookup_run(DiscussionRunStatus::Queued, 0)), Ok(current)).unwrap_err().code,
        ErrorCode::RunNotStarted
    );
}

#[test]
fn an_invocation_is_claimed_at_most_once_within_its_allowance() {
    let prepared = identity(LookupInvocationState::Prepared, 1);
    let claimed = claim_invocation(&prepared, Ok(400), Ok((500, 0)), 500).unwrap();
    assert_eq!(claimed.state, LookupInvocationState::Claimed);
    assert_eq!(claimed.ordinal, prepared.ordinal);
    assert_eq!(
        claim_invocation(&claimed, Ok(400), Ok((500, 0)), 500).unwrap_err().code,
        ErrorCode::LookupInvocationAlreadyClaimed
    );
    assert_eq!(
        claim_invocation(&prepared, Ok(501), Ok((500, 0)), 500).unwrap_err().code,
        ErrorCode::LookupAllowanceExceeded
    );
    assert_eq!(
        claim_invocation(&prepared, Ok(1), Ok((0, 0)), 501).unwrap_err().code,
        ErrorCode::LookupAllowanceExceeded
    );
    let read_failed = claim_invocation(&prepared, Err(CoreError::new(ErrorCode::InvalidContextPacket, "bad")), Ok((0, 0)), 1);
    assert_eq!(read_failed.unwrap_err().code, ErrorCode::InvalidContextPacket);
}

#[test]
fn a_needs_context_reply_expands_until_the_limit() {
    let request = LookupAdvanceRequest { owner: owner(), completed_ordinal: "0".into() };
    let step = advance_lookup(
        &info(),
        &request,
        Ok(lookup_run(DiscussionRunStatus::Running, 1)),
        Ok(identity(LookupInvocationState::NeedsContext, 1)),
        1,
    )
    .unwrap();
    assert!(matches!(step, LookupAdvanceStep::Expand { completed: 0, next: 1 }));

    let last = LookupAdvanceRequest { owner: owner(), completed_ordinal: "2".into() };
    match advance_lookup(&info(), &last, Ok(lookup_run(DiscussionRunStatus::Running, 1)), Ok(identity(LookupInvocationState::NeedsContext, 1)), 1).unwrap() {
        LookupAdvanceStep::Finished(c) => {
            assert_eq!(c.run.status, DiscussionRunStatus::Failed);
            assert_eq!(c.run.stop_reason.as_deref(), Some("lookup_limit"));
            assert_eq!(c.event.unwrap().event_id, "lookup-limit-2");
        }
        LookupAdvanceStep::Expand { .. } => panic!("no fourth invocation"),
    }

    match advance_lookup(&info(), &request, Ok(lookup_run(DiscussionRunStatus::Running, 1)), Ok(identity(LookupInvocationState::NeedsContext, 1)), 9).unwrap() {
        LookupAdvanceStep::Finished(c) => {
            assert_eq!(c.run.stop_reason.as_deref(), Some("context_stale"));
            assert_eq!(c.event.unwrap().event_id, "lookup-stale-0");
        }
        LookupAdvanceStep::Expand { .. } => panic!("the story changed"),
    }

    assert_eq!(
        advance_lookup(&info(), &request, Ok(lookup_run(DiscussionRunStatus::Running, 1)), Ok(identity(LookupInvocationState::Completed, 1)), 1)
            .unwrap_err()
            .code,
        ErrorCode::LookupExpansionUnavailable
    );
}

#[test]
fn the_allowance_caps_expansion() {
    let mut run = lookup_run(DiscussionRunStatus::Running, 1);
    run.lookup = Some(allowance(0, "1000", "1000"));
    let first = LookupAdvanceRequest { owner: owner(), completed_ordinal: "0".into() };
    let step = advance_lookup(&info(), &first, Ok(run.clone()), Ok(identity(LookupInvocationState::NeedsContext, 1)), 1).unwrap();
    assert!(matches!(step, LookupAdvanceStep::Expand { completed: 0, next: 1 }));
    let second = LookupAdvanceRequest { owner: owner(), completed_ordinal: "1".into() };
    match advance_lookup(&info(), &second, Ok(run), Ok(identity(LookupInvocationState::NeedsContext, 1)), 1).unwrap() {
        LookupAdvanceStep::Finished(c) => assert_eq!(c.event.unwrap().event_id, "lookup-limit-1"),
        LookupAdvanceStep::Expand { .. } => panic!("the allowance is used up"),
    }
}

#[test]
fn a_read_keeps_the_named_blocks_in_source_order() {
    let blocks: Vec<String> = vec!["b1".into(), "b2".into(), "b3".into()];
    assert_eq!(select_passages(&blocks, &None), Some((vec![0, 1, 2], true)));
    assert_eq!(select_passages(&blocks, &Some(vec!["b3".into(), "b1".into()])), Some((vec![0, 2], false)));
    assert_eq!(select_passages(&blocks, &Some(vec!["b2".into(), "b1".into(), "b3".into()])), Some((vec![0, 1, 2], true)));
    assert_eq!(select_passages(&blocks, &Some(vec!["b9".into()])), None);
}

#[test]
fn needs_context_reads_must_be_authorized() {
    assert!(authorize_envelope(ResponseKind::Discussion, &None, &vec![]).is_ok());
    assert!(authorize_envelope(ResponseKind::NeedsContext, &Some(Ok(())), &vec![Ok(()), Ok(())]).is_ok());
    assert_eq!(
        authorize_envelope(ResponseKind::NeedsContext, &None, &vec![]).unwrap_err().code,
        ErrorCode::InvalidLookupCapability
    );
    assert_eq!(
        authorize_envelope(ResponseKind::NeedsContext, &Some(Ok(())), &vec![Ok(()), Err("outside the capability".into())]).unwrap_err().code,
        ErrorCode::InvalidLookupCapability
    );
}

#[test]
fn lookup_reads_are_recorded_once_under_their_fingerprints() {
    let request = "{\"q\":1}";
    let result = "[]";
    let request_hash = "6ae0f660046dadcf5fe8462c0e00a062db4c8d67be82f4098c5ea4208d19b076".to_string();
    let result_hash = "4f53cda18c2baa0c0354bb5f9a3ecbe5ed12ab4d8e11ba873c2f11161202b945".to_string();
    match plan_store_read(LookupInvocationState::NeedsContext, request, result, &None).unwrap() {
        ReadStore::Insert { request_hash: a, result_hash: b } => {
            assert_eq!(a, request_hash);
            assert_eq!(b, result_hash);
        }
        other => panic!("unexpected {:?}", other),
    }
    let saved = Some((request_hash.clone(), result_hash.clone()));
    assert!(matches!(plan_store_read(LookupInvocationState::NeedsContext, request, result, &saved).unwrap(), ReadStore::Replayed));
    let err = plan_store_read(LookupInvocationState::NeedsContext, request, "[1]", &saved).unwrap_err();
    assert_eq!(err.code, ErrorCode::LookupReadConflict);
    let err = plan_store_read(LookupInvocationState::Completed, request, result, &None).unwrap_err();
    assert_eq!(err.code, ErrorCode::LookupReadUnavailable);
}
