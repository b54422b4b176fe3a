use conversation::chapters::{ProjectChapterComposer, ProjectComposer, TaskDraftRef};
use conversation::digest::sha256_hex;
use conversation::error::{CoreError, ErrorCode};
use conversation::request::{FeedbackIntent, ProjectBriefOrigin, SafeBriefInput};
use conversation::transfer::{
    check_item_header, check_item_sequences, check_materialization_event, check_stored_assistant_draft,
    check_stored_chapter_composer, check_stored_composer, check_transfer_run, AssistantDraftRow,
    ConversationOwner, DraftDocumentFacts, DraftProvenance, MaterializationEvent, MaterializedDraft,
    MaterializedRun, RunProvenance, StoredDocumentFacts, StoredItem, StoredOwner, ThreadOwner, TransferRunRow,
};
use conversation::transfer::{blank_anchor, check_anchor, check_head_fields, AnchorBlock, AnchorFacts, HeadFields};
use conversation::transfer::{
    check_chat_receipt_result, check_receipt_document, check_receipt_first_document, check_receipt_header, check_receipt_row,
    ReceiptDocumentFields, ReceiptFields,
};
use conversation::transfer::{check_disposition_payload, revision_step, DispositionPayload, DispositionScopeKind, RevisionRow};
use conversation::vocab::Head;

fn owner() -> ConversationOwner {
    ConversationOwner {
        project_id: "project".into(),
        operation_namespace: "namespace".into(),
        conversation_id: "conversation".into(),
        anchor_document_id: "anchor".into(),
    }
}

fn head(id: &str, version: &str) -> Head {
    Head { document_id: id.into(), version: version.into(), body_hash: "ab".repeat(32) }
}

fn item(id: &str, conversation: &str, sequence: i64) -> StoredItem {
    let payload = format!("{{\"id\":\"{id}\"}}");
    StoredItem {
        id: id.into(),
        conversation_id: conversation.into(),
        sequence,
        kind: "request".into(),
        payload_hash: sha256_hex(payload.as_bytes()),
        payload_json: payload,
        operation_id: None,
    }
}

fn run_row() -> TransferRunRow {
    TransferRunRow {
        thread_id: "thread".into(),
        project_id: "project".into(),
        operation_namespace: "namespace".into(),
        target_document_id: "anchor".into(),
        target_version: "3".into(),
        target_body_hash: "cd".repeat(32),
        packet_id: "packet".into(),
        status: "completed".into(),
        dispatch_state: "delivered".into(),
        sequence: 4,
        output_text: "answer".into(),
    }
}

fn thread(document: &str) -> Option<ThreadOwner> {
    Some(ThreadOwner { project_id: "project".into(), operation_namespace: "namespace".into(), document_id: document.into() })
}

fn packet() -> Option<StoredOwner> {
    Some(StoredOwner { project_id: "project".into(), operation_namespace: "namespace".into() })
}

fn anchor_role() -> Result<(String, String), CoreError> {
    Ok(("conversationAnchor".into(), "anchor".into()))
}

#[test]
fn conversation_items_are_numbered_per_conversation() {
    let items = vec![item("a", "c1", 1), item("b", "c2", 1), item("c", "c1", 2)];
    assert!(check_item_sequences(&items).is_ok());
    let gap = vec![item("a", "c1", 1), item("c", "c1", 3)];
    assert_eq!(check_item_sequences(&gap).unwrap_err().code, ErrorCode::InvalidProjectChat);
    assert!(check_item_header(&items[0]).is_ok());
    let mut altered = item("a", "c1", 1);
    altered.payload_json = "{}".into();
    assert_eq!(check_item_header(&altered).unwrap_err().code, ErrorCode::InvalidProjectChat);
}

#[test]
fn a_retained_run_is_rooted_in_its_conversation() {
    let row = Some(run_row());
    assert!(check_transfer_run(&owner(), "run-1", &row, false, &thread("anchor"), anchor_role(), &packet(), 1).is_ok());
    assert_eq!(
        check_transfer_run(&owner(), "run-1", &row, false, &thread("anchor"), anchor_role(), &packet(), 2).unwrap_err().code,
        ErrorCode::InvalidProjectChat
    );
    assert_eq!(
        check_transfer_run(&owner(), "run-1", &None, false, &thread("anchor"), anchor_role(), &packet(), 1).unwrap_err().code,
        ErrorCode::InvalidProjectChat
    );
    let mut bad_status = run_row();
    bad_status.status = "paused".into();
    assert_eq!(
        check_transfer_run(&owner(), "run-1", &Some(bad_status), false, &thread("anchor"), anchor_role(), &packet(), 1).unwrap_err().code,
        ErrorCode::InvalidProjectChat
    );
    let mut chapter = run_row();
    chapter.target_document_id = "chapter-1".into();
    let chapter_role: Result<(String, String), CoreError> = Ok(("ordinary".into(), "chapter".into()));
    assert!(check_transfer_run(&owner(), "run-1", &Some(chapter), true, &thread("chapter-1"), chapter_role, &packet(), 1).is_ok());
    let unreadable = Err(CoreError::new(ErrorCode::InvalidProject, "missing document"));
    assert_eq!(
        check_transfer_run(&owner(), "run-1", &row, false, &thread("anchor"), unreadable, &packet(), 1).unwrap_err().code,
        ErrorCode::InvalidProject
    );
}

fn event(drafts: Vec<MaterializedDraft>) -> MaterializationEvent {
    MaterializationEvent {
        run_id: "run-1".into(),
        sequence: 4,
        output_hash: sha256_hex(b"answer"),
        output_valid: true,
        has_detail: false,
        has_group_effects: false,
        draft_refs: drafts,
    }
}

fn materialized_run() -> Result<MaterializedRun, CoreError> {
    Ok(MaterializedRun { sequence: 4, output_text: "answer".into(), status: "completed".into(), dispatch_state: "delivered".into() })
}

fn provenance(ordinal: i64) -> Option<DraftProvenance> {
    Some(DraftProvenance { conversation_id: "conversation".into(), operation_namespace: "namespace".into(), output_ordinal: ordinal })
}

#[test]
fn a_materialization_event_enumerates_the_runs_drafts() {
    let drafts = vec![
        MaterializedDraft { ordinal: 0, document_id: "d0".into() },
        MaterializedDraft { ordinal: 1, document_id: "d1".into() },
    ];
    let ok = check_materialization_event(&owner(), "run-1", &event(drafts), materialized_run(), Ok(()), &vec![provenance(0), provenance(1)], &vec![true, true], 2);
    assert!(ok.is_ok());
    let repeated = vec![
        MaterializedDraft { ordinal: 0, document_id: "d0".into() },
        MaterializedDraft { ordinal: 0, document_id: "d1".into() },
    ];
    let dup = check_materialization_event(&owner(), "run-1", &event(repeated), materialized_run(), Ok(()), &vec![provenance(0), provenance(0)], &vec![true, true], 2);
    assert_eq!(dup.unwrap_err().code, ErrorCode::InvalidProjectChat);
    let missing = check_materialization_event(&owner(), "run-1", &event(vec![]), materialized_run(), Ok(()), &vec![], &vec![], 1);
    assert_eq!(missing.unwrap_err().code, ErrorCode::InvalidProjectChat);
    let mut altered = event(vec![]);
    altered.output_hash = sha256_hex(b"other");
    let changed = check_materialization_event(&owner(), "run-1", &altered, materialized_run(), Ok(()), &vec![], &vec![], 0);
    assert_eq!(changed.unwrap_err().code, ErrorCode::InvalidProjectChat);
    let other_reference = check_materialization_event(&owner(), "run-2", &event(vec![]), materialized_run(), Ok(()), &vec![], &vec![], 0);
    assert_eq!(other_reference.unwrap_err().code, ErrorCode::InvalidProjectChat);
}

fn composer(sources: Vec<Head>, drafts: Vec<TaskDraftRef>) -> ProjectComposer {
    ProjectComposer { text: "Plan the next act.".into(), source_refs: sources, task_draft_refs: drafts, focused_document_ref: None, chapter: None }
}

fn ordinary() -> Result<String, CoreError> {
    Ok("ordinary".into())
}

#[test]
fn a_stored_composer_names_each_source_once() {
    let c = composer(vec![head("a", "1"), head("b", "2")], vec![TaskDraftRef { head: head("d", "0"), disposition_version: "1".into() }]);
    assert!(check_stored_composer(&c, &vec![ordinary(), ordinary()], ordinary(), &vec![Ok(true)]).is_ok());
    let repeated = composer(vec![head("a", "1"), head("a", "2")], vec![]);
    assert_eq!(
        check_stored_composer(&repeated, &vec![ordinary(), ordinary()], ordinary(), &vec![]).unwrap_err().code,
        ErrorCode::InvalidProjectChat
    );
    let foreign = composer(vec![], vec![TaskDraftRef { head: head("d", "0"), disposition_version: "1".into() }]);
    assert_eq!(
        check_stored_composer(&foreign, &vec![], ordinary(), &vec![Ok(false)]).unwrap_err().code,
        ErrorCode::InvalidProjectChat
    );
    let guidance = composer(vec![head("a", "1")], vec![]);
    assert_eq!(
        check_stored_composer(&guidance, &vec![Ok("assistantDraft".into())], ordinary(), &vec![]).unwrap_err().code,
        ErrorCode::InvalidProjectChat
    );
    let unreadable = check_stored_composer(&guidance, &vec![Err(CoreError::new(ErrorCode::InvalidProject, "gone"))], ordinary(), &vec![]);
    assert_eq!(unreadable.unwrap_err().code, ErrorCode::InvalidProject);
    let mut focused = composer(vec![head("a", "1")], vec![]);
    focused.focused_document_ref = Some(head("a", "1"));
    assert_eq!(
        check_stored_composer(&focused, &vec![ordinary()], ordinary(), &vec![]).unwrap_err().code,
        ErrorCode::InvalidProjectChat
    );
}

#[test]
fn a_stored_chapter_task_matches_its_chapter_and_brief() {
    let target = head("chapter-1", "7");
    let scope_json = b"null";
    let text = "Keep the reveal for the last page.";
    let origin = ProjectBriefOrigin {
        version: "project-conversation-brief.v1".into(),
        project_id: "project".into(),
        operation_namespace: "namespace".into(),
        conversation_id: "conversation".into(),
        message_id: "message-1".into(),
        scope_hash: sha256_hex(scope_json),
        text_hash: sha256_hex(text.as_bytes()),
        target: head("chapter-1", "7"),
    };
    let chapter = ProjectChapterComposer {
        target,
        intent: FeedbackIntent::ProposeEdits,
        basis: None,
        scope: None,
        safe_brief: Some(SafeBriefInput {
            text: text.into(),
            confirmed: true,
            origin_message_id: Some("message-1".into()),
            project_origin: Some(origin),
        }),
    };
    let facts = || {
        Ok(StoredDocumentFacts { role: "ordinary".into(), kind: "chapter".into(), working_version: 7, body_hash: "ab".repeat(32) })
    };
    assert!(check_stored_chapter_composer(&owner(), &chapter, facts(), scope_json, Ok(true)).is_ok());
    assert_eq!(
        check_stored_chapter_composer(&owner(), &chapter, facts(), scope_json, Ok(false)).unwrap_err().code,
        ErrorCode::InvalidProjectChat
    );
    assert_eq!(
        check_stored_chapter_composer(&owner(), &chapter, facts(), b"{}", Ok(true)).unwrap_err().code,
        ErrorCode::InvalidProjectChat
    );
    let moved = Ok(StoredDocumentFacts { role: "ordinary".into(), kind: "chapter".into(), working_version: 8, body_hash: "ab".repeat(32) });
    assert_eq!(
        check_stored_chapter_composer(&owner(), &chapter, moved, scope_json, Ok(true)).unwrap_err().code,
        ErrorCode::InvalidProjectChat
    );
}

fn draft_row() -> AssistantDraftRow {
    AssistantDraftRow {
        document_id: "draft-1".into(),
        conversation_id: "conversation".into(),
        project_id: "project".into(),
        operation_namespace: "namespace".into(),
        origin_run_id: "run-1".into(),
        output_ordinal: 0,
        packet_id: "packet".into(),
        source_epoch: 2,
        policy_epoch: 1,
        has_target: false,
        predecessor_document_id: None,
        disposition: "pending".into(),
        disposition_version: 0,
    }
}

fn draft_document() -> Result<DraftDocumentFacts, CoreError> {
    Ok(DraftDocumentFacts { role: "assistantDraft".into(), trashed: 0, working_version: 1, body_hash: "ef".repeat(32), has_checkpoint: true })
}

fn run_provenance() -> Option<RunProvenance> {
    Some(RunProvenance { project_id: "project".into(), operation_namespace: "namespace".into(), packet_id: "packet".into() })
}

#[test]
fn a_stored_assistant_draft_has_consistent_provenance() {
    let ok = check_stored_assistant_draft(&draft_row(), &Some(owner()), draft_document(), Ok("draft-1".into()), &run_provenance(), true, true, Ok(()), false);
    assert!(ok.is_ok());
    let mut bad = draft_row();
    bad.disposition = "archived".into();
    assert_eq!(
        check_stored_assistant_draft(&bad, &Some(owner()), draft_document(), Ok("draft-1".into()), &run_provenance(), true, true, Ok(()), false)
            .unwrap_err()
            .code,
        ErrorCode::InvalidProjectChat
    );
    let unmaterialized = check_stored_assistant_draft(&draft_row(), &Some(owner()), draft_document(), Ok("draft-1".into()), &run_provenance(), true, false, Ok(()), false);
    assert_eq!(unmaterialized.unwrap_err().code, ErrorCode::InvalidProjectChat);
    let mut self_predecessor = draft_row();
    self_predecessor.predecessor_document_id = Some("draft-1".into());
    assert_eq!(
        check_stored_assistant_draft(&self_predecessor, &Some(owner()), draft_document(), Ok("draft-1".into()), &run_provenance(), true, true, Ok(()), true)
            .unwrap_err()
            .code,
        ErrorCode::InvalidProjectChat
    );
    assert_eq!(
        check_stored_assistant_draft(&draft_row(), &None, draft_document(), Ok("draft-1".into()), &run_provenance(), true, true, Ok(()), false)
            .unwrap_err()
            .code,
        ErrorCode::InvalidProjectChat
    );
}

fn disposition(text: &str, kind: DispositionScopeKind, reference: Option<&str>, unknown_to: bool) -> DispositionPayload {
    DispositionPayload {
        disposition: text.into(),
        scope_kind: kind,
        scope_reference: reference.map(|r| r.to_string()),
        has_unknown_to: unknown_to,
    }
}

#[test]
fn dispositions_match_what_they_dispose_of() {
    let project = disposition("accepted", DispositionScopeKind::Project, None, false);
    assert!(check_disposition_payload("draft-1", &project, true, false, Ok(false), &None).is_ok());
    let task = disposition("accepted", DispositionScopeKind::Task, Some("run-1"), false);
    assert_eq!(check_disposition_payload("draft-1", &task, true, false, Ok(false), &None).unwrap_err().code, ErrorCode::InvalidProjectChat);
    assert!(check_disposition_payload("run-1:q1", &task, true, true, Ok(false), &None).is_ok());
    assert_eq!(check_disposition_payload("run-1:q1", &task, true, true, Ok(true), &None).unwrap_err().code, ErrorCode::InvalidProjectChat);
    assert_eq!(check_disposition_payload("run-1:q1", &task, true, false, Ok(false), &None).unwrap_err().code, ErrorCode::InvalidProjectChat);
    let other_task = disposition("accepted", DispositionScopeKind::Task, Some("run-2"), false);
    assert_eq!(check_disposition_payload("run-1:", &other_task, true, true, Ok(false), &None).unwrap_err().code, ErrorCode::InvalidProjectChat);
    let mystery = disposition("keepMysterious", DispositionScopeKind::Chapter, Some("chapter-1"), true);
    assert!(check_disposition_payload("run-1:q2", &mystery, true, true, Ok(false), &Some("chapter".into())).is_ok());
    assert_eq!(
        check_disposition_payload("run-1:q2", &mystery, true, true, Ok(false), &Some("character".into())).unwrap_err().code,
        ErrorCode::InvalidProjectChat
    );
    let named = disposition("accepted", DispositionScopeKind::Project, None, true);
    assert_eq!(check_disposition_payload("run-1:q2", &named, true, true, Ok(false), &None).unwrap_err().code, ErrorCode::InvalidProjectChat);
    let unreadable = check_disposition_payload("run-1:q2", &task, true, true, Err(CoreError::new(ErrorCode::InvalidProjectChat, "bad output")), &None);
    assert_eq!(unreadable.unwrap_err().code, ErrorCode::InvalidProjectChat);
}

fn revision(document: &str, parent: Option<&str>) -> Result<RevisionRow, CoreError> {
    Ok(RevisionRow {
        document_id: document.into(),
        source_working_version: 2,
        body_hash: "ab".repeat(32),
        parent_id: parent.map(|p| p.to_string()),
        schema_version: 1,
    })
}

#[test]
fn a_revision_walk_follows_parents_and_refuses_cycles() {
    let expected = Some("ab".repeat(32));
    assert_eq!(revision_step("doc", &expected, &vec![], "rev-2", revision("doc", Some("rev-1")), Ok(())).unwrap(), Some("rev-1".to_string()));
    assert_eq!(revision_step("doc", &None, &vec!["rev-2".to_string()], "rev-1", revision("doc", None), Ok(())).unwrap(), None);
    assert_eq!(
        revision_step("doc", &None, &vec!["rev-2".to_string()], "rev-2", revision("doc", None), Ok(())).unwrap_err().code,
        ErrorCode::InvalidProjectChat
    );
    assert_eq!(
        revision_step("doc", &None, &vec![], "rev-3", revision("other", None), Ok(())).unwrap_err().code,
        ErrorCode::InvalidProjectChat
    );
    let other_hash = Some("cd".repeat(32));
    assert_eq!(
        revision_step("doc", &other_hash, &vec![], "rev-3", revision("doc", None), Ok(())).unwrap_err().code,
        ErrorCode::InvalidProjectChat
    );
}

fn paragraph(content_len: Option<usize>) -> AnchorBlock {
    AnchorBlock { block_type: Some("paragraph".to_string()), content_len }
}

#[test]
fn blank_anchor_is_one_empty_paragraph() {
    assert!(blank_anchor(&Some(vec![paragraph(None)])));
    assert!(blank_anchor(&Some(vec![paragraph(Some(0))])));
    assert!(!blank_anchor(&Some(vec![paragraph(Some(1))])));
    assert!(!blank_anchor(&Some(vec![paragraph(None), paragraph(None)])));
    assert!(!blank_anchor(&Some(vec![AnchorBlock { block_type: Some("heading".to_string()), content_len: None }])));
    assert!(!blank_anchor(&Some(Vec::new())));
    assert!(!blank_anchor(&None));
}

fn anchor(role: &str, kind: &str, trashed: i64, blocks: Option<Vec<AnchorBlock>>, checkpoint: Option<&str>) -> AnchorFacts {
    AnchorFacts {
        role: role.to_string(),
        kind: kind.to_string(),
        trashed,
        blocks,
        checkpoint: checkpoint.map(|c| c.to_string()),
    }
}

#[test]
fn anchor_must_be_a_live_blank_note_with_a_revision() {
    let good = anchor("conversationAnchor", "note", 0, Some(vec![paragraph(None)]), Some("rev1"));
    assert_eq!(check_anchor(&good).unwrap(), "rev1");
    let cases = vec![
        anchor("ordinary", "note", 0, Some(vec![paragraph(None)]), Some("rev1")),
        anchor("conversationAnchor", "chapter", 0, Some(vec![paragraph(None)]), Some("rev1")),
        anchor("conversationAnchor", "note", 1, Some(vec![paragraph(None)]), Some("rev1")),
        anchor("conversationAnchor", "note", 0, Some(vec![paragraph(Some(2))]), Some("rev1")),
        anchor("conversationAnchor", "note", 0, Some(vec![paragraph(None)]), None),
    ];
    for case in cases {
        assert_eq!(check_anchor(&case).unwrap_err().code, ErrorCode::InvalidProjectChat);
    }
}

#[test]
fn stored_head_json_needs_every_field() {
    let hash = "a".repeat(64);
    let fields = |is_object: bool, d: Option<&str>, v: Option<&str>, h: Option<&str>| HeadFields {
        is_object,
        document_id: d.map(|x| x.to_string()),
        version: v.map(|x| x.to_string()),
        body_hash: h.map(|x| x.to_string()),
    };
    let head = check_head_fields(&fields(true, Some("doc-1"), Some("3"), Some(&hash))).unwrap();
    assert_eq!(head.document_id, "doc-1");
    assert_eq!(head.version, "3");
    assert_eq!(head.body_hash, hash);
    for bad in [
        fields(false, Some("doc-1"), Some("3"), Some(&hash)),
        fields(true, None, Some("3"), Some(&hash)),
        fields(true, Some("doc-1"), None, Some(&hash)),
        fields(true, Some("doc-1"), Some("3"), None),
        fields(true, Some("doc-1"), Some("03"), Some(&hash)),
        fields(true, Some("doc-1"), Some("3"), Some("abc")),
        fields(true, Some(""), Some("3"), Some(&hash)),
    ] {
        assert_eq!(check_head_fields(&bad).unwrap_err().code, ErrorCode::InvalidProjectChat);
    }
}

fn head_fields(doc: &str) -> HeadFields {
    HeadFields {
        is_object: true,
        document_id: Some(doc.to_string()),
        version: Some("2".to_string()),
        body_hash: Some("b".repeat(64)),
    }
}

fn receipt_document(doc: &str, role: &str) -> ReceiptDocumentFields {
    ReceiptDocumentFields {
        is_object: true,
        head: Some(head_fields(doc)),
        role: Some(role.to_string()),
        last_checkpoint_id: Some(format!("cp-{}", doc)),
    }
}

fn receipt(documents: Option<Vec<ReceiptDocumentFields>>) -> ReceiptFields {
    ReceiptFields {
        is_object: true,
        preview_id: Some("preview-1".to_string()),
        decision_id: Some("decision-1".to_string()),
        documents,
    }
}

#[test]
fn chat_receipt_rows_are_well_formed() {
    let hash = "c".repeat(64);
    assert!(check_receipt_row("ns", "op-1", &hash).is_ok());
    assert_eq!(check_receipt_row("", "op-1", &hash).unwrap_err().code, ErrorCode::InvalidProjectChat);
    assert_eq!(check_receipt_row("ns", "op-1", "short").unwrap_err().code, ErrorCode::InvalidProjectChat);
}

#[test]
fn adoption_receipt_commits_one_to_three_ordinary_documents() {
    let good = receipt(Some(vec![receipt_document("d1", "ordinary")]));
    assert!(check_receipt_header(true, &good).is_ok());
    assert_eq!(check_receipt_header(false, &good).unwrap_err().code, ErrorCode::InvalidProjectChat);
    assert_eq!(check_receipt_header(true, &receipt(Some(Vec::new()))).unwrap_err().code, ErrorCode::InvalidProjectChat);
    let four = (1..=4).map(|i| receipt_document(&format!("d{}", i), "ordinary")).collect();
    assert_eq!(check_receipt_header(true, &receipt(Some(four))).unwrap_err().code, ErrorCode::InvalidProjectChat);
    assert_eq!(check_receipt_header(true, &receipt(None)).unwrap_err().code, ErrorCode::InvalidProjectChat);

    let revision = check_receipt_document(&receipt_document("d1", "ordinary")).unwrap();
    assert_eq!(revision.checkpoint_id, "cp-d1");
    assert_eq!(revision.document_id, "d1");
    assert_eq!(revision.body_hash, "b".repeat(64));
    assert_eq!(check_receipt_document(&receipt_document("d1", "assistantDraft")).unwrap_err().code, ErrorCode::InvalidProjectChat);
    let mut no_checkpoint = receipt_document("d1", "ordinary");
    no_checkpoint.last_checkpoint_id = None;
    assert_eq!(check_receipt_document(&no_checkpoint).unwrap_err().code, ErrorCode::InvalidProjectChat);

    assert!(check_receipt_first_document(&Some("d1".to_string()), &good).is_ok());
    assert_eq!(check_receipt_first_document(&Some("d2".to_string()), &good).unwrap_err().code, ErrorCode::InvalidProjectChat);
    assert_eq!(check_receipt_first_document(&None, &good).unwrap_err().code, ErrorCode::InvalidProjectChat);
}

#[test]
fn other_chat_receipts_need_their_document_and_an_owner() {
    let owners = vec!["ns-a".to_string(), "ns-b".to_string()];
    let head = head_fields("d1");
    assert!(check_chat_receipt_result(true, &Some("d1".to_string()), &head, "4", &owners, "ns-b").is_ok());
    assert!(check_chat_receipt_result(true, &None, &head, "4", &owners, "ns-a").is_ok());
    for (linked, doc, generation, namespace) in [
        (false, Some("d1"), "4", "ns-a"),
        (true, Some("d2"), "4", "ns-a"),
        (true, Some("d1"), "x", "ns-a"),
        (true, Some("d1"), "4", "ns-c"),
    ] {
        let doc = doc.map(|d| d.to_string());
        let err = check_chat_receipt_result(linked, &doc, &head, generation, &owners, namespace).unwrap_err();
        assert_eq!(err.code, ErrorCode::InvalidProjectChat);
    }
}
