use conversation::start::{start_discussion, StartStep};
use conversation::error::{CoreError, ErrorCode};
use conversation::operations::{
    append_discussion_output, begin_discussion_run, fail_discussion_run, finish_discussion,
    interrupt_discussion, mark_discussion_delivered, recover_interrupted_discussions,
    settle_discussion_stop, stop_discussion, BeginOutcome, ContextFreshness, DiscussionBegin,
    DiscussionFail, DiscussionFinish, DiscussionOutputAppend, DiscussionStopCleanup,
    DiscussionStopSettled,
};
use conversation::vocab::{
    DiscussionRun, DiscussionRunStatus, DispatchState, EventKind, ExistingEvent, ProjectAccess,
    ProjectInfo, RunChange, RunOwner, RunStep,
};

fn info() -> ProjectInfo {
    ProjectInfo { project_id: "project".into(), operation_namespace: "namespace".into() }
}

fn access() -> ProjectAccess {
    ProjectAccess {
        project_id: "project".into(),
        operation_namespace: "namespace".into(),
        session: "session".into(),
        writer_lease: "lease".into(),
    }
}

fn owner() -> RunOwner {
    RunOwner { project_id: "project".into(), operation_namespace: "namespace".into(), run_id: "run-1".into() }
}

fn run(status: DiscussionRunStatus, sequence: u64, output: &str) -> DiscussionRun {
    DiscussionRun {
        id: "run-1".into(),
        thread_id: "thread-1".into(),
        owner: owner(),
        packet_id: "packet-1".into(),
        provider_binding: None,
        lookup: None,
        status,
        dispatch_state: DispatchState::Claimed,
        sequence,
        output_text: output.into(),
        stop_reason: None,
    }
}

fn changed(step: Result<RunStep, CoreError>) -> RunChange {
    match step.expect("step") {
        RunStep::Changed(c) => c,
        RunStep::Replayed(_) => panic!("expected a change"),
    }
}

fn append(sequence: &str, event_id: &str, chunk: &str) -> DiscussionOutputAppend {
    DiscussionOutputAppend {
        owner: owner(),
        expected_sequence: sequence.into(),
        event_id: event_id.into(),
        chunk: chunk.into(),
    }
}

#[test]
fn appended_chunk_extends_output_at_next_sequence() {
    let c = changed(append_discussion_output(
        &info(),
        &append("2", "ev-3", " world"),
        Ok(run(DiscussionRunStatus::Running, 2, "hello")),
        None,
    ));
    assert_eq!(c.run.output_text, "hello world");
    assert_eq!(c.run.sequence, 3);
    assert_eq!(c.run.status, DiscussionRunStatus::Running);
    let ev = c.event.expect("event");
    assert_eq!(ev.sequence, 3);
    assert_eq!(ev.kind, EventKind::Chunk);
    assert_eq!(ev.event_id, "ev-3");
    assert_eq!(ev.chunk, " world");
    assert!(c.message.is_none());
}

#[test]
fn repeated_chunk_replays_and_altered_chunk_is_refused() {
    let recorded = ExistingEvent { kind: EventKind::Chunk, chunk: " world".into(), sequence: 3 };
    let step = append_discussion_output(
        &info(),
        &append("2", "ev-3", " world"),
        Ok(run(DiscussionRunStatus::Running, 3, "hello world")),
        Some(recorded.clone()),
    )
    .unwrap();
    assert!(matches!(step, RunStep::Replayed(r) if r.output_text == "hello world"));
    let err = append_discussion_output(
        &info(),
        &append("2", "ev-3", " there"),
        Ok(run(DiscussionRunStatus::Running, 3, "hello world")),
        Some(recorded),
    )
    .unwrap_err();
    assert_eq!(err.code, ErrorCode::EventIdReused);
}

#[test]
fn append_checks_status_sequence_and_owner() {
    let stale = append_discussion_output(&info(), &append("1", "ev", "x"), Ok(run(DiscussionRunStatus::Running, 2, "ab")), None);
    assert_eq!(stale.unwrap_err().code, ErrorCode::SequenceConflict);
    let queued = append_discussion_output(&info(), &append("0", "ev", "x"), Ok(run(DiscussionRunStatus::Queued, 0, "")), None);
    assert_eq!(queued.unwrap_err().code, ErrorCode::RunNotStarted);
    let stopping = append_discussion_output(&info(), &append("0", "ev", "x"), Ok(run(DiscussionRunStatus::Stopping, 0, "")), None);
    assert_eq!(stopping.unwrap_err().code, ErrorCode::RunStopping);
    let sealed = append_discussion_output(&info(), &append("0", "ev", "x"), Ok(run(DiscussionRunStatus::Completed, 0, "")), None);
    assert_eq!(sealed.unwrap_err().code, ErrorCode::RunSealed);
    let other = ProjectInfo { project_id: "other".into(), operation_namespace: "namespace".into() };
    let mismatch = append_discussion_output(&other, &append("0", "ev", "x"), Ok(run(DiscussionRunStatus::Running, 0, "")), None);
    assert_eq!(mismatch.unwrap_err().code, ErrorCode::DiscussionProjectMismatch);
    let empty = append_discussion_output(&info(), &append("0", "ev", ""), Ok(run(DiscussionRunStatus::Running, 0, "")), None);
    assert_eq!(empty.unwrap_err().code, ErrorCode::InvalidRequest);
    let read_failed = append_discussion_output(
        &info(),
        &append("0", "ev", "x"),
        Err(CoreError::new(ErrorCode::InvalidProject, "unreadable")),
        None,
    );
    assert_eq!(read_failed.unwrap_err().code, ErrorCode::InvalidProject);
}

#[test]
fn output_over_two_mebibytes_is_refused() {
    let big = "a".repeat(2 * 1024 * 1024);
    let err = append_discussion_output(&info(), &append("1", "ev", "b"), Ok(run(DiscussionRunStatus::Running, 1, &big)), None)
        .unwrap_err();
    assert_eq!(err.code, ErrorCode::OutputTooLarge);
}

#[test]
fn finish_completes_with_the_full_answer() {
    let request = DiscussionFinish {
        owner: owner(),
        expected_sequence: "1".into(),
        event_id: "done".into(),
        assistant_text: "hello world".into(),
    };
    let c = changed(finish_discussion(&info(), &request, Ok(run(DiscussionRunStatus::Running, 1, "hello")), None));
    assert_eq!(c.run.status, DiscussionRunStatus::Completed);
    assert_eq!(c.run.output_text, "hello world");
    assert_eq!(c.run.sequence, 2);
    let m = c.message.expect("message");
    assert_eq!(m.content, "hello world");
    assert!(m.packet_id.is_none());
    let conflict = DiscussionFinish { assistant_text: "goodbye".into(), ..request };
    let err = finish_discussion(&info(), &conflict, Ok(run(DiscussionRunStatus::Running, 1, "hello")), None).unwrap_err();
    assert_eq!(err.code, ErrorCode::OutputConflict);
}

#[test]
fn failure_keeps_partial_output_and_names_the_reason() {
    let request = DiscussionFail {
        owner: owner(),
        expected_sequence: "1".into(),
        event_id: "fail-1".into(),
        reason: "  provider crashed \n".into(),
    };
    let c = changed(fail_discussion_run(&info(), &request, Ok(run(DiscussionRunStatus::Running, 1, "partial")), None));
    assert_eq!(c.run.status, DiscussionRunStatus::Failed);
    assert_eq!(c.run.output_text, "partial");
    assert_eq!(c.run.stop_reason.as_deref(), Some("provider crashed"));
    assert_eq!(c.event.as_ref().unwrap().chunk, "Discussion failed: provider crashed");
    assert_eq!(c.message.unwrap().content, "partial\n\n[Discussion failed: provider crashed]");
    let stopping = fail_discussion_run(&info(), &request, Ok(run(DiscussionRunStatus::Stopping, 1, "partial")), None);
    assert_eq!(stopping.unwrap_err().code, ErrorCode::RunStopping);
}

#[test]
fn stopping_a_queued_run_seals_it_and_a_running_run_waits_for_cleanup() {
    let c = changed(stop_discussion(&access(), "run-1", Ok(run(DiscussionRunStatus::Queued, 0, ""))));
    assert_eq!(c.run.status, DiscussionRunStatus::Stopped);
    assert_eq!(c.event.as_ref().unwrap().event_id, "system-stop-run-1");
    assert_eq!(c.message.unwrap().content, "You stopped this response. Any partial text shown here is saved.");

    let c = changed(stop_discussion(&access(), "run-1", Ok(run(DiscussionRunStatus::Running, 2, "ab"))));
    assert_eq!(c.run.status, DiscussionRunStatus::Stopping);
    assert_eq!(c.run.stop_reason.as_deref(), Some("author_stopped"));
    assert!(c.event.is_none());
    assert_eq!(c.run.sequence, 2);

    let done = stop_discussion(&access(), "run-1", Ok(run(DiscussionRunStatus::Completed, 2, "ab"))).unwrap();
    assert!(matches!(done, RunStep::Replayed(_)));
}

#[test]
fn stop_settlement_records_the_cleanup_outcome() {
    let request = DiscussionStopSettled {
        owner: owner(),
        expected_sequence: "2".into(),
        event_id: "stop-done".into(),
        assistant_text: "ab".into(),
        cleanup: DiscussionStopCleanup::Unresolved,
    };
    let c = changed(settle_discussion_stop(&info(), &request, Ok(run(DiscussionRunStatus::Stopping, 2, "ab")), None));
    assert_eq!(c.run.status, DiscussionRunStatus::Interrupted);
    assert_eq!(c.run.stop_reason.as_deref(), Some("stop_cleanup_unresolved"));
    let m = c.message.unwrap();
    assert_eq!(m.content, "ab\n\n[This response was interrupted. Any partial text shown here is saved.]");
    assert_eq!(m.packet_id.as_deref(), Some("packet-1"));
    let not_stopping = settle_discussion_stop(&info(), &request, Ok(run(DiscussionRunStatus::Running, 2, "ab")), None);
    assert_eq!(not_stopping.unwrap_err().code, ErrorCode::RunSealed);
}

#[test]
fn delivery_and_claim_follow_the_dispatch_states() {
    let mut queued = run(DiscussionRunStatus::Queued, 0, "");
    queued.dispatch_state = DispatchState::Pending;
    let fresh = ContextFreshness {
        snapshot_source_epoch: 4,
        snapshot_policy_epoch: 2,
        source_epoch: 4,
        policy_epoch: 2,
        project_chat_current: true,
    };
    let begin = DiscussionBegin { owner: owner() };
    match begin_discussion_run(&info(), &begin, Ok(queued.clone()), fresh).unwrap() {
        BeginOutcome::Claimed(r) => {
            assert_eq!(r.status, DiscussionRunStatus::Running);
            assert_eq!(r.dispatch_state, DispatchState::Claimed);
        }
        BeginOutcome::Stale(_) => panic!("context is current"),
    }
    let stale = ContextFreshness { source_epoch: 5, ..fresh };
    match begin_discussion_run(&info(), &begin, Ok(queued.clone()), stale).unwrap() {
        BeginOutcome::Stale(c) => {
            assert_eq!(c.run.status, DiscussionRunStatus::Failed);
            assert_eq!(c.run.stop_reason.as_deref(), Some("context_stale"));
            assert_eq!(c.event.unwrap().event_id, "system-stale-run-1");
        }
        BeginOutcome::Claimed(_) => panic!("context changed"),
    }
    let running = begin_discussion_run(&info(), &begin, Ok(run(DiscussionRunStatus::Running, 0, "")), fresh);
    assert_eq!(running.unwrap_err().code, ErrorCode::RunAlreadyStarted);

    let delivered = mark_discussion_delivered(&info(), &owner(), Ok(run(DiscussionRunStatus::Running, 3, "x"))).unwrap();
    assert_eq!(delivered.dispatch_state, DispatchState::Delivered);
    assert_eq!(delivered.status, DiscussionRunStatus::Running);
    let sealed = mark_discussion_delivered(&info(), &owner(), Ok(run(DiscussionRunStatus::Completed, 3, "x")));
    assert_eq!(sealed.unwrap_err().code, ErrorCode::RunSealed);
    let stopping = mark_discussion_delivered(&info(), &owner(), Ok(run(DiscussionRunStatus::Stopping, 3, "x")));
    assert_eq!(stopping.unwrap_err().code, ErrorCode::RunStopping);
}

#[test]
fn closing_and_reopening_interrupt_active_runs() {
    let chained = interrupt_discussion(&access(), "run-1", Ok(run(DiscussionRunStatus::Running, 1, "part"))).unwrap();
    assert!(chained.stop_chain);
    let c = changed(Ok(chained.step));
    assert_eq!(c.run.status, DiscussionRunStatus::Interrupted);
    assert_eq!(c.run.stop_reason.as_deref(), Some("project_close_cleanup"));
    assert_eq!(c.event.unwrap().event_id, "system-interrupted-run-1");
    let idle = interrupt_discussion(&access(), "run-1", Ok(run(DiscussionRunStatus::Failed, 1, "part"))).unwrap();
    assert!(!idle.stop_chain);
    assert!(matches!(idle.step, RunStep::Replayed(_)));

    let (changes, n, stop_chains) = recover_interrupted_discussions(vec![
        run(DiscussionRunStatus::Queued, 0, ""),
        run(DiscussionRunStatus::Running, 4, "abc"),
    ])
    .unwrap();
    assert_eq!(n, 2);
    assert!(stop_chains);
    assert_eq!(changes.len(), 2);
    for c in &changes {
        assert_eq!(c.run.status, DiscussionRunStatus::Interrupted);
        assert_eq!(c.run.stop_reason.as_deref(), Some("project_reopened"));
    }
    assert_eq!(changes[1].run.sequence, 5);
    assert_eq!(changes[1].run.output_text, "abc");
    let none = recover_interrupted_discussions(vec![run(DiscussionRunStatus::Completed, 1, "")]);
    assert_eq!(none.unwrap_err().code, ErrorCode::RunSealed);
}

fn start_request(lookup: bool) -> conversation::request::StartDiscussion {
    conversation::request::StartDiscussion {
        access: access(),
        operation_id: "op-start".into(),
        expected: conversation::vocab::Head { document_id: "doc-1".into(), version: "3".into(), body_hash: "ab".repeat(32) },
        instruction: "Is the ending earned?".into(),
        intent: conversation::request::FeedbackIntent::Discuss,
        basis: None,
        scope: None,
        pinned_document_ids: vec![],
        safe_brief: None,
        provider_binding: None,
        previous_run_id: Some("run-0".into()),
        lookup: if lookup {
            Some(conversation::vocab::LookupAllowance {
                max_additional_invocations: 1,
                total_input_bytes: "1000".into(),
                total_output_bytes: "1000".into(),
                validation_error: None,
            })
        } else {
            None
        },
        workshop_metadata_error: None,
    }
}

#[test]
fn a_new_start_queues_an_empty_run_with_the_authors_message() {
    let request = start_request(true);
    let plan = conversation::start::new_discussion(
        &request,
        "hash",
        "run-9".into(),
        "thread-1".into(),
        "message-1".into(),
        "packet-1".into(),
        None,
    );
    assert_eq!(plan.run.status, DiscussionRunStatus::Queued);
    assert_eq!(plan.run.dispatch_state, conversation::vocab::DispatchState::Pending);
    assert_eq!(plan.run.sequence, 0);
    assert!(plan.run.output_text.is_empty());
    assert_eq!(plan.run.owner.run_id, "run-9");
    assert_eq!(plan.run.owner.project_id, "project");
    assert_eq!(plan.run.packet_id, "packet-1");
    assert!(plan.run.lookup.is_some());
    assert!(plan.prepares_lookup);
    assert_eq!(plan.operation_id, "op-start");
    assert_eq!(plan.payload_hash, "hash");
    assert_eq!(plan.target.document_id, "doc-1");
    assert_eq!(plan.previous_run_id, Some("run-0".to_string()));
    assert_eq!(plan.user_message.content, "Is the ending earned?");
    assert_eq!(plan.user_message.run_id, "run-9");
    assert_eq!(plan.user_message.packet_id, "packet-1");
    let plain = conversation::start::new_discussion(&start_request(false), "hash", "run-9".into(), "t".into(), "m".into(), "p".into(), None);
    assert!(!plain.prepares_lookup);
    assert!(plain.run.lookup.is_none());
}

#[test]
fn a_repeated_start_replays_the_stored_run() {
    let request = start_request(false);
    match start_discussion(&request, "hash", Ok(Some(("run-9".into(), "hash".into())))).unwrap() {
        StartStep::Replayed(run_id) => assert_eq!(run_id, "run-9"),
        other => panic!("unexpected {:?}", other),
    }
    assert!(matches!(start_discussion(&request, "hash", Ok(None)).unwrap(), StartStep::Proceed));
    let err = start_discussion(&request, "hash", Ok(Some(("run-9".into(), "other".into())))).unwrap_err();
    assert_eq!(err.code, ErrorCode::OperationIdReusedWithDifferentPayload);
}

#[test]
fn an_invalid_start_is_refused_with_its_validation_error() {
    let mut request = start_request(false);
    request.instruction = "   ".into();
    let err = start_discussion(&request, "hash", Ok(None)).unwrap_err();
    assert_eq!(err.code, ErrorCode::InvalidRequest);
    assert_eq!(err.message, "A discussion instruction must be nonempty and at most 64 KiB.");
    let mut bad_id = start_request(false);
    bad_id.operation_id = "".into();
    let err = start_discussion(&bad_id, "hash", Ok(None)).unwrap_err();
    assert_eq!(err.message, "An identifier must be 1 to 64 ASCII letters, digits, '-' or '_'.");
    let mut workshop = start_request(false);
    workshop.intent = conversation::request::FeedbackIntent::WorkshopExplore;
    workshop.previous_run_id = None;
    workshop.workshop_metadata_error = Some("The workshop metadata is malformed.".into());
    let err = start_discussion(&workshop, "hash", Ok(None)).unwrap_err();
    assert_eq!(err.code, ErrorCode::InvalidWorkshop);
    assert_eq!(err.message, "The workshop metadata is malformed.");
}
