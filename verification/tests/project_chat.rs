use conversation::chat::{materialization_record, materialization_replays, replayed_materialization};
use conversation::chat::{chat_materialization, drafts_to_create, FrozenChat};
use conversation::history::history_page_order;
use conversation::chapters::TaskDraftRef;
use conversation::chat::{
    allowed_predecessor_handles, allowed_target_handles, check_target_revision, find_frozen_source,
    materialize_operation_id, materialize_payload_hash, predecessor_document_id, project_chat_activity,
    terminal_run_ready, DraftSource, RevisionHead, SourceDocument,
};
use conversation::digest::sha256_hex;
use conversation::error::{CoreError, ErrorCode};
use conversation::history::{
    check_draft_revision, check_historical_source, distinct_source_revisions, draft_revision_ids,
    check_history_item, cut_history_page, history_page, history_page_size, is_run_item,
    shows_in_history, valid_identity, HistoricalConversationRef, HistoryPage, ReadProjectChatHistory,
};
use conversation::pins::{merge_pinned_document_ids, resolve_pinned_handles, FrozenSource};
use conversation::request::FeedbackIntent;
use conversation::vocab::{Head, ProjectAccess, RunOwner};

fn strings(items: &[&str]) -> Vec<String> {
    items.iter().map(|s| s.to_string()).collect()
}

fn conversation() -> HistoricalConversationRef {
    HistoricalConversationRef {
        project_id: "project".into(),
        operation_namespace: "namespace".into(),
        conversation_id: "conversation".into(),
    }
}

fn history_request(before: Option<&str>, limit: u32) -> ReadProjectChatHistory {
    ReadProjectChatHistory {
        access: ProjectAccess {
            project_id: "project".into(),
            operation_namespace: "namespace".into(),
            session: "session".into(),
            writer_lease: "lease".into(),
        },
        conversation: conversation(),
        before: before.map(|b| b.to_string()),
        limit,
    }
}

fn source(document_id: &str, handle: &str) -> FrozenSource {
    FrozenSource {
        document_id: document_id.into(),
        body_hash: "0".repeat(64),
        handle: handle.into(),
        is_target: false,
    }
}

#[test]
fn merged_pins_are_sorted_and_unique() {
    let merged = merge_pinned_document_ids(&strings(&["doc-c", "doc-a"]), &strings(&["doc-b", "doc-a"])).unwrap();
    assert_eq!(merged, strings(&["doc-a", "doc-b", "doc-c"]));
    let again = merge_pinned_document_ids(&merged, &vec![]).unwrap();
    assert_eq!(again, merged);
}

#[test]
fn a_request_may_not_pin_a_document_twice_or_too_many() {
    let err = merge_pinned_document_ids(&vec![], &strings(&["doc-a", "doc-a"])).unwrap_err();
    assert_eq!(err.code, ErrorCode::InvalidRequest);
    let many: Vec<String> = (0..65).map(|i| format!("doc-{i:03}")).collect();
    assert_eq!(merge_pinned_document_ids(&many, &vec![]).unwrap_err().code, ErrorCode::InvalidRequest);
    let sixty_four: Vec<String> = (0..64).map(|i| format!("doc-{i:03}")).collect();
    assert_eq!(merge_pinned_document_ids(&sixty_four, &vec![]).unwrap().len(), 64);
}

#[test]
fn pins_resolve_to_their_frozen_handles_in_pin_order() {
    let sources = vec![source("doc-a", "S1"), source("doc-b", "S2"), source("doc-a", "S3")];
    let handles = resolve_pinned_handles(&sources, &strings(&["doc-b", "doc-a"])).unwrap();
    assert_eq!(handles, strings(&["S2", "S1"]));
    assert_eq!(
        resolve_pinned_handles(&sources, &strings(&["doc-z"])).unwrap_err().code,
        ErrorCode::SourceNotFound
    );
    assert_eq!(
        resolve_pinned_handles(&sources, &strings(&["doc-a", "doc-a"])).unwrap_err().code,
        ErrorCode::InvalidRequest
    );
}

#[test]
fn history_pages_default_to_forty_items() {
    assert_eq!(history_page_size(), 40);
    assert_eq!(history_page(&history_request(None, 0)).unwrap(), HistoryPage { limit: 40, before: i64::MAX as u64 });
    assert_eq!(history_page(&history_request(Some("17"), 5)).unwrap(), HistoryPage { limit: 5, before: 17 });
    assert_eq!(history_page(&history_request(None, 41)).unwrap_err().code, ErrorCode::InvalidRequest);
    assert_eq!(history_page(&history_request(Some("-1"), 5)).unwrap_err().code, ErrorCode::InvalidRequest);
}

#[test]
fn a_full_page_points_at_the_next_older_one() {
    assert_eq!(cut_history_page(&vec![9, 8, 7], 2), (2, Some("8".to_string())));
    assert_eq!(cut_history_page(&vec![9, 8], 2), (2, None));
    assert_eq!(cut_history_page(&vec![], 40), (0, None));
}

#[test]
fn conversation_identities_are_checked() {
    assert!(valid_identity(&conversation()).is_ok());
    let bad = HistoricalConversationRef { conversation_id: "no spaces".into(), ..conversation() };
    assert_eq!(valid_identity(&bad).unwrap_err().code, ErrorCode::InvalidRequest);
}

#[test]
fn retained_items_must_match_their_fingerprint() {
    let payload = "{\"text\":\"hello\"}";
    let hash = sha256_hex(payload.as_bytes());
    assert!(check_history_item(3, payload, &hash).is_ok());
    assert_eq!(check_history_item(0, payload, &hash).unwrap_err().code, ErrorCode::InvalidProjectChat);
    assert_eq!(
        check_history_item(3, "{\"text\":\"other\"}", &hash).unwrap_err().code,
        ErrorCode::InvalidProjectChat
    );
    assert!(is_run_item("request"));
    assert!(is_run_item("materializeChatResult"));
    assert!(!is_run_item("message"));
    assert!(shows_in_history("chapterRequest", FeedbackIntent::Discuss));
    assert!(!shows_in_history("chapterRequest", FeedbackIntent::ProposeEdits));
    assert!(shows_in_history("request", FeedbackIntent::ProposeEdits));
}

#[test]
fn materialization_has_a_stable_identity() {
    assert_eq!(materialize_operation_id("run-1"), "chat-materialize-run-1");
    let owner = RunOwner { project_id: "p".into(), operation_namespace: "n".into(), run_id: "r".into() };
    assert_eq!(materialize_payload_hash(&owner), sha256_hex(b"project-chat-materialize-v1:p:n:r"));
    assert_ne!(materialize_payload_hash(&owner), "project-chat-materialize-v1:p:n:r");
}

#[test]
fn only_a_delivered_terminal_run_materializes() {
    let done = Some("answer".to_string());
    assert!(terminal_run_ready("completed", "delivered", &done, "answer"));
    assert!(!terminal_run_ready("running", "delivered", &done, "answer"));
    assert!(!terminal_run_ready("completed", "claimed", &done, "answer"));
    assert!(!terminal_run_ready("completed", "delivered", &done, "other"));
    assert!(!terminal_run_ready("completed", "delivered", &None, "answer"));
}

#[test]
fn activity_counts_pending_drafts() {
    assert_eq!(project_chat_activity(3).unwrap().pending_drafts, 3);
    assert_eq!(project_chat_activity(-1).unwrap_err().code, ErrorCode::InvalidProject);
}

#[test]
fn adoption_targets_are_frozen_ordinary_sources() {
    let sources = vec![
        SourceDocument { handle: "S2".into(), role: "ordinary".into(), kind: "character".into() },
        SourceDocument { handle: "S1".into(), role: "ordinary".into(), kind: "world".into() },
        SourceDocument { handle: "S3".into(), role: "ordinary".into(), kind: "chapter".into() },
        SourceDocument { handle: "S4".into(), role: "guidance".into(), kind: "world".into() },
    ];
    assert_eq!(allowed_target_handles(&sources, false), strings(&["S1", "S2"]));
    assert_eq!(allowed_target_handles(&sources, true), strings(&["S3"]));
}

fn draft_source(handle: &str, assistant: bool, doc: &str, hash: &str) -> DraftSource {
    DraftSource {
        handle: handle.to_string(),
        is_assistant_draft: assistant,
        document_id: doc.to_string(),
        revision_id: format!("rev-{}", doc),
        body_hash: hash.to_string(),
    }
}

fn task_draft(doc: &str, hash: &str) -> TaskDraftRef {
    TaskDraftRef {
        head: Head { document_id: doc.to_string(), version: "1".to_string(), body_hash: hash.to_string() },
        disposition_version: "0".to_string(),
    }
}

#[test]
fn predecessor_handles_are_attached_assistant_drafts_only() {
    let sources = vec![
        draft_source("S2", true, "d2", "h2"),
        draft_source("S1", true, "d1", "h1"),
        draft_source("S3", false, "d3", "h3"),
        draft_source("S4", true, "d4", "other"),
    ];
    let drafts = vec![task_draft("d1", "h1"), task_draft("d2", "h2"), task_draft("d3", "h3"), task_draft("d4", "h4")];
    let roles: Vec<Result<String, CoreError>> = vec![
        Ok("assistantDraft".to_string()),
        Ok("assistantDraft".to_string()),
        Ok("ordinary".to_string()),
        Ok("ordinary".to_string()),
    ];
    let handles = allowed_predecessor_handles(Some(&drafts), &sources, &roles).unwrap();
    assert_eq!(handles, strings(&["S1", "S2"]));
    assert!(allowed_predecessor_handles(None, &sources, &roles).unwrap().is_empty());
}

#[test]
fn attached_predecessor_with_another_role_is_refused() {
    let sources = vec![draft_source("S1", true, "d1", "h1")];
    let drafts = vec![task_draft("d1", "h1")];
    let roles: Vec<Result<String, CoreError>> = vec![Ok("ordinary".to_string())];
    let err = allowed_predecessor_handles(Some(&drafts), &sources, &roles).unwrap_err();
    assert_eq!(err.code, ErrorCode::InvalidProjectChatContext);
    let failed: Vec<Result<String, CoreError>> = vec![Err(CoreError::new(ErrorCode::DocumentNotFound, "gone"))];
    let err = allowed_predecessor_handles(Some(&drafts), &sources, &failed).unwrap_err();
    assert_eq!(err.code, ErrorCode::DocumentNotFound);
}

#[test]
fn predecessor_document_follows_the_named_handle() {
    let sources = vec![draft_source("S1", true, "d1", "h1"), draft_source("S2", false, "d2", "h2")];
    let drafts = vec![task_draft("d1", "h1"), task_draft("d2", "h2")];
    assert_eq!(predecessor_document_id(Some(&drafts), &sources, None).unwrap(), None);
    assert_eq!(predecessor_document_id(Some(&drafts), &sources, Some("S1")).unwrap(), Some("d1".to_string()));
    for (chat, handle) in [(None, "S1"), (Some(&drafts), "S2"), (Some(&drafts), "S9")] {
        let err = predecessor_document_id(chat, &sources, Some(handle)).unwrap_err();
        assert_eq!(err.code, ErrorCode::InvalidProjectChatOutput);
    }
}

#[test]
fn target_revision_must_match_its_frozen_source() {
    let source = draft_source("S1", false, "d1", "h1");
    let good = RevisionHead { document_id: "d1".to_string(), source_working_version: 7, body_hash: "h1".to_string() };
    let head = check_target_revision(&source, &good).unwrap();
    assert_eq!(head.document_id, "d1");
    assert_eq!(head.version, "7");
    assert_eq!(head.body_hash, "h1");
    let moved = RevisionHead { document_id: "d1".to_string(), source_working_version: 7, body_hash: "h2".to_string() };
    assert_eq!(check_target_revision(&source, &moved).unwrap_err().code, ErrorCode::InvalidProjectChatOutput);
    let sources = vec![draft_source("S1", false, "d1", "h1"), draft_source("S1", true, "d9", "h9")];
    assert_eq!(find_frozen_source(&sources, "S1"), Some(0));
    assert_eq!(find_frozen_source(&sources, "S2"), None);
}

#[test]
fn history_shows_each_source_revision_once() {
    let ids = strings(&["r1", "r2", "r1", "r3", "r2"]);
    assert_eq!(distinct_source_revisions(&ids), vec![0, 1, 3]);
    assert!(distinct_source_revisions(&Vec::new()).is_empty());
    assert!(check_historical_source("d1", "h1", "d1", "h1").is_ok());
    assert_eq!(check_historical_source("d1", "h1", "d2", "h1").unwrap_err().code, ErrorCode::InvalidProjectChat);
    assert_eq!(check_historical_source("d1", "h1", "d1", "h2").unwrap_err().code, ErrorCode::InvalidProjectChat);
}

#[test]
fn history_shows_current_draft_revision_when_it_moved() {
    assert_eq!(draft_revision_ids("a", &None), strings(&["a"]));
    assert_eq!(draft_revision_ids("a", &Some("a".to_string())), strings(&["a"]));
    assert_eq!(draft_revision_ids("a", &Some("b".to_string())), strings(&["a", "b"]));
    assert!(check_draft_revision("d1", "d1", true).is_ok());
    assert_eq!(check_draft_revision("d1", "d2", false).unwrap_err().code, ErrorCode::InvalidProjectChat);
}

#[test]
fn chapter_and_other_targets_never_share_a_handle() {
    let sources = vec![
        SourceDocument { handle: "S1".into(), role: "ordinary".into(), kind: "chapter".into() },
        SourceDocument { handle: "S2".into(), role: "ordinary".into(), kind: "note".into() },
        SourceDocument { handle: "S3".into(), role: "assistantDraft".into(), kind: "chapter".into() },
        SourceDocument { handle: "S4".into(), role: "ordinary".into(), kind: "chapter".into() },
    ];
    let chapters = allowed_target_handles(&sources, true);
    let others = allowed_target_handles(&sources, false);
    assert_eq!(chapters, strings(&["S1", "S4"]));
    assert_eq!(others, strings(&["S2"]));
    assert!(chapters.iter().all(|h| !others.contains(h)));
}

#[test]
fn only_a_completed_valid_output_creates_drafts() {
    let chat = Some(FrozenChat { conversation_id: "conv-1".into(), operation_namespace: "ns".into() });
    assert_eq!(drafts_to_create("completed", &Ok(true), &Ok(()), &chat, "conv-1", "ns", 2), 2);
    assert_eq!(drafts_to_create("stopped", &Ok(true), &Ok(()), &chat, "conv-1", "ns", 2), 0);
    assert_eq!(drafts_to_create("completed", &Ok(true), &Err("bad_json".into()), &chat, "conv-1", "ns", 2), 0);
    let done = chat_materialization(
        "run-1".into(), "item-1".into(), "completed", Ok(true), Ok(()), &chat, "conv-1", "ns",
        vec!["d1".into(), "d2".into()], None,
    );
    assert!(done.output_valid);
    assert_eq!(done.draft_ids, strings(&["d1", "d2"]));
    assert_eq!(done.detail, None);
    let stopped = chat_materialization(
        "run-1".into(), "item-1".into(), "stopped", Ok(true), Ok(()), &chat, "conv-1", "ns", vec![], None,
    );
    assert!(!stopped.output_valid);
    assert!(stopped.draft_ids.is_empty());
    assert_eq!(stopped.detail, Some("terminal_status_stopped".to_string()));
    let elsewhere = chat_materialization(
        "run-1".into(), "item-1".into(), "completed", Ok(true), Ok(()), &chat, "conv-2", "ns", vec![], None,
    );
    assert_eq!(elsewhere.detail, Some("project_chat_identity_mismatch".to_string()));
}

#[test]
fn a_history_page_reads_oldest_first_below_the_cursor() {
    let (order, older) = history_page_order(&vec![9, 7, 5, 3], 3, 10);
    assert_eq!(order, vec![2, 1, 0]);
    assert_eq!(older, Some("5".to_string()));
    let (order, older) = history_page_order(&vec![9, 7], 3, 10);
    assert_eq!(order, vec![1, 0]);
    assert_eq!(older, None);
    let (order, older) = history_page_order(&Vec::new(), 40, 10);
    assert!(order.is_empty());
    assert_eq!(older, None);
}

#[test]
fn a_second_materialization_replays_the_recorded_result() {
    use_materialization_replay();
}

fn use_materialization_replay() {
    let chat = Some(FrozenChat { conversation_id: "conv-1".into(), operation_namespace: "ns".into() });
    let first = chat_materialization(
        "run-1".into(), "item-1".into(), "completed", Ok(true), Ok(()), &chat, "conv-1", "ns",
        vec!["d1".into()], None,
    );
    let record = materialization_record(first, 5, "f".repeat(64));
    assert_eq!(record.sequence, 5);
    let second = replayed_materialization("item-1".into(), record);
    assert_eq!(second.item_id, "item-1");
    assert_eq!(second.draft_ids, strings(&["d1"]));
    assert!(second.output_valid);
    assert_eq!(second.detail, None);
    let owner = RunOwner { project_id: "p".into(), operation_namespace: "ns".into(), run_id: "run-1".into() };
    let hash = materialize_payload_hash(&owner);
    assert_eq!(materialization_replays(&Some(("materializeChatResult".into(), hash.clone())), &hash).unwrap(), true);
    assert_eq!(materialization_replays(&None, &hash).unwrap(), false);
    assert_eq!(
        materialization_replays(&Some(("materializeChatResult".into(), "other".into())), &hash).unwrap_err().code,
        ErrorCode::OperationIdReusedWithDifferentPayload
    );
}
