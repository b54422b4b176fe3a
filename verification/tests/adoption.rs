use conversation::adoption::{adoption_effects, assemble_relationships};
use conversation::adoption::{body_text, current_workshop_version, BodyNode};
use conversation::adoption::{effects_equal, plan_preview_targets, prepare_step, preview_plan, PrepareStep, PreparedDraft, PreparedTargetDocument};
use conversation::adoption::{draft_disposition_version, draft_ref_fields, DraftRefInput, VersionField};
use conversation::adoption::{
    check_stored_preview_target, existing_receipt, validate_historical_relationship_endpoint, StoredPreviewTarget,
    check_dependency_current, check_group_effects, check_proposed_endpoint, check_protected_current,
    check_retained_effects, check_stored_preview_header, group_origin_run, protected_content, proposed_relationship,
    ChatAdoptionEffects, ChatAdoptionRelationship, ChatRelationshipDependency, CurrentRelationship, DraftOriginRow,
    EffectTarget, GroupEffectsOutput, GroupImpactOutput, GroupRelationshipOutput, StoredDocumentRef, StoredPreviewHeader,
};
use conversation::digest::sha256_hex;
use conversation::error::{CoreError, ErrorCode};
use conversation::snapshot::{
    check_snapshot_transition, validate_chat_workshop_snapshot, ChatSnapshotReads, CommittedRelationship, ExpandedPreview,
    StoredDecision, WorkshopStateRecord,
    check_adoption_receipt, check_command_receipt_row, check_committed_target, check_decision_rows,
    check_snapshot_binding, check_snapshot_version, materialize_chat_relationships, AdoptionReceipt,
    CommandReceiptRow, CommittedDocument, DecisionRow, PreviewRow, PreviewTargetRef,
};
use conversation::vocab::{Head, ProjectAccess};

fn head(id: &str, version: &str) -> Head {
    Head { document_id: id.into(), version: version.into(), body_hash: "ab".repeat(32) }
}

fn access() -> ProjectAccess {
    ProjectAccess {
        project_id: "project".into(),
        operation_namespace: "namespace".into(),
        session: "session".into(),
        writer_lease: "lease".into(),
    }
}

fn target(id: &str, kind: &str) -> EffectTarget {
    EffectTarget { key: format!("key-{id}"), document_id: id.into(), head: head(id, "1"), kind: kind.into() }
}

fn document_ref(id: &str, role: &str) -> StoredDocumentRef {
    StoredDocumentRef {
        head: head(id, "3"),
        title: "Mara".into(),
        kind: "character".into(),
        metadata_version: "1".into(),
        last_checkpoint_id: Some("rev-1".into()),
        role: role.into(),
    }
}

fn relationship(from: &str, to: &str) -> ChatAdoptionRelationship {
    ChatAdoptionRelationship {
        key: "r1".into(),
        relationship_id: "rel-1".into(),
        from_document_id: from.into(),
        to_document_id: to.into(),
        relationship_type: "rivals".into(),
        description: "Old rivals.".into(),
        uncertainty: "low".into(),
        from_head: head(from, "1"),
        to_head: head(to, "1"),
    }
}

#[test]
fn review_only_effects_cannot_be_adopted() {
    let relationships_only = || GroupEffectsOutput {
        relationships: vec![GroupRelationshipOutput {
            key: "r1".into(),
            from_ref: "D1".into(),
            to_ref: "S1".into(),
            relationship_type: "rivals".into(),
            description: "Old rivals.".into(),
            uncertainty: "low".into(),
        }],
        impacts: vec![],
        supersessions: vec![],
        placements: vec![],
    };
    assert!(check_group_effects(&Some(relationships_only()), &Some(relationships_only())).is_ok());
    assert!(check_group_effects(&None, &None).is_ok());
    assert!(check_group_effects(&None, &Some(relationships_only())).is_ok());
    let mut changed = relationships_only();
    changed.relationships[0].description = "New rivals.".into();
    assert_eq!(check_group_effects(&Some(changed), &Some(relationships_only())).unwrap_err().code, ErrorCode::InvalidRequest);
    assert_eq!(check_group_effects(&Some(relationships_only()), &None).unwrap_err().code, ErrorCode::InvalidRequest);
    let mut with_impacts = relationships_only();
    with_impacts.impacts.push(GroupImpactOutput { target_ref: "D1".into(), kind: "tone".into(), reason: "r".into(), relationship_key: None });
    assert_eq!(check_group_effects(&None, &Some(with_impacts)).unwrap_err().code, ErrorCode::InvalidRequest);
}

#[test]
fn protected_text_is_fingerprinted() {
    let p = protected_content("doc".into(), head("doc", "2"), "The well is dry.".into());
    assert_eq!(p.text_hash, sha256_hex("The well is dry.".as_bytes()));
    assert_eq!(p.source_head.version, "2");
}

#[test]
fn relationships_connect_characters_and_worlds() {
    let rel = proposed_relationship("k".into(), "rel-9".into(), &target("a", "character"), &target("b", "world"), "lives in".into(), "d".into(), "u".into()).unwrap();
    assert_eq!(rel.from_document_id, "a");
    assert_eq!(rel.to_head.document_id, "b");
    let err = proposed_relationship("k".into(), "rel-9".into(), &target("a", "chapter"), &target("b", "world"), "t".into(), "d".into(), "u".into());
    assert_eq!(err.unwrap_err().code, ErrorCode::InvalidRequest);
}

#[test]
fn grouped_drafts_come_from_one_response() {
    let row = |run: &str, project: &str| DraftOriginRow { origin_run_id: run.into(), project_id: project.into(), operation_namespace: "namespace".into() };
    assert_eq!(group_origin_run(&access(), &vec![row("run-1", "project"), row("run-1", "project")]).unwrap(), "run-1");
    assert_eq!(group_origin_run(&access(), &vec![row("run-1", "project"), row("run-2", "project")]).unwrap_err().code, ErrorCode::InvalidRequest);
    assert_eq!(group_origin_run(&access(), &vec![row("run-1", "other")]).unwrap_err().code, ErrorCode::WrongProjectSession);
    assert_eq!(group_origin_run(&access(), &vec![]).unwrap_err().code, ErrorCode::InvalidRequest);
    let effects = || GroupEffectsOutput { relationships: vec![], impacts: vec![], supersessions: vec![], placements: vec![] };
    assert!(check_retained_effects(&Some(Some(effects())), &Some(effects())).is_ok());
    assert!(check_retained_effects(&Some(None), &None).is_ok());
    assert!(check_retained_effects(&None, &None).is_ok());
    assert_eq!(check_retained_effects(&None, &Some(effects())).unwrap_err().code, ErrorCode::InvalidProjectChat);
    assert_eq!(check_retained_effects(&Some(None), &Some(effects())).unwrap_err().code, ErrorCode::InvalidProjectChat);
}

#[test]
fn dependencies_and_endpoints_must_be_current() {
    let expected = ChatRelationshipDependency {
        relationship_id: "rel-1".into(),
        from_document_id: "a".into(),
        to_document_id: "b".into(),
        relationship_type: "rivals".into(),
        from_head: head("a", "1"),
        to_head: head("b", "1"),
    };
    let current = vec![CurrentRelationship {
        id: "rel-1".into(),
        from_document_id: "a".into(),
        to_document_id: "b".into(),
        relationship_type: "rivals".into(),
        source_heads: vec![head("a", "1"), head("b", "1")],
    }];
    let targets = vec!["a".to_string()];
    assert!(check_dependency_current(&expected, &current, &targets, Ok(head("a", "5")), Ok(head("b", "1"))).is_ok());
    assert_eq!(
        check_dependency_current(&expected, &current, &targets, Ok(head("a", "1")), Ok(head("b", "2"))).unwrap_err().code,
        ErrorCode::VersionConflict
    );
    assert_eq!(
        check_dependency_current(&expected, &vec![], &targets, Ok(head("a", "1")), Ok(head("b", "1"))).unwrap_err().code,
        ErrorCode::WorkshopChanged
    );
    assert!(check_proposed_endpoint(&head("a", "1"), &targets, &Some(head("a", "1")), Ok(head("a", "9"))).is_ok());
    assert_eq!(
        check_proposed_endpoint(&head("a", "1"), &targets, &Some(head("a", "2")), Ok(head("a", "1"))).unwrap_err().code,
        ErrorCode::DraftChanged
    );
    assert_eq!(
        check_proposed_endpoint(&head("c", "1"), &targets, &None, Ok(head("c", "2"))).unwrap_err().code,
        ErrorCode::VersionConflict
    );
    let p = protected_content("doc".into(), head("doc", "2"), "The well is dry.".into());
    assert!(check_protected_current(&p, Ok(head("doc", "2")), Ok(true), true).is_ok());
    assert_eq!(check_protected_current(&p, Ok(head("doc", "2")), Ok(true), false).unwrap_err().code, ErrorCode::ProtectedContentChanged);
    assert_eq!(check_protected_current(&p, Ok(head("doc", "3")), Ok(true), true).unwrap_err().code, ErrorCode::ProtectedContentChanged);
}

fn preview_header() -> StoredPreviewHeader {
    StoredPreviewHeader {
        schema_version: "chat-adoption-preview.v1".into(),
        id: "preview-1".into(),
        project_id: "project".into(),
        operation_namespace: "namespace".into(),
        conversation_id: "conversation".into(),
        target_count: 2,
        request_hash: "0".repeat(64),
        version: "1".into(),
        digest: "1".repeat(64),
        source_epoch: "4".into(),
        policy_epoch: "2".into(),
        workshop_version: "9".into(),
    }
}

#[test]
fn a_stored_preview_is_its_items_own() {
    assert!(check_stored_preview_header(&preview_header(), "project", "namespace", "conversation", "preview-1").is_ok());
    assert_eq!(
        check_stored_preview_header(&preview_header(), "project", "namespace", "conversation", "preview-2").unwrap_err().code,
        ErrorCode::InvalidProjectChat
    );
    let too_many = StoredPreviewHeader { target_count: 4, ..preview_header() };
    assert_eq!(
        check_stored_preview_header(&too_many, "project", "namespace", "conversation", "preview-1").unwrap_err().code,
        ErrorCode::InvalidProjectChat
    );
    let bad_epoch = StoredPreviewHeader { source_epoch: "x".into(), ..preview_header() };
    assert_eq!(
        check_stored_preview_header(&bad_epoch, "project", "namespace", "conversation", "preview-1").unwrap_err().code,
        ErrorCode::InvalidRequest
    );
}

#[test]
fn a_chat_snapshot_rests_on_one_receipt_and_decision() {
    let row = Some(CommandReceiptRow { document_id: "a".into(), payload_hash: "f".repeat(64), operation_kind: "adoptChatPreview".into() });
    assert!(check_command_receipt_row(&row).is_ok());
    assert_eq!(check_command_receipt_row(&None).unwrap_err().code, ErrorCode::InvalidProjectChat);
    let receipt = AdoptionReceipt { preview_id: "preview-1".into(), decision_id: "decision-1".into(), documents: vec![document_ref("a", "ordinary")] };
    assert!(check_adoption_receipt("a", &receipt).is_ok());
    assert_eq!(check_adoption_receipt("b", &receipt).unwrap_err().code, ErrorCode::InvalidProjectChat);
    let payload = "{\"decision\":1}";
    let decision = DecisionRow {
        conversation_id: "conversation".into(),
        project_id: "project".into(),
        operation_namespace: "namespace".into(),
        reference_id: Some("decision-1".into()),
        payload_json: payload.into(),
        payload_hash: sha256_hex(payload.as_bytes()),
    };
    assert!(check_decision_rows("project", "namespace", "decision-1", &vec![decision]).is_ok());
    assert_eq!(check_decision_rows("project", "namespace", "decision-1", &vec![]).unwrap_err().code, ErrorCode::InvalidProjectChat);
}

#[test]
fn a_chat_snapshot_is_the_next_workshop_version() {
    assert!(check_snapshot_version("9", 10).is_ok());
    assert_eq!(check_snapshot_version("9", 11).unwrap_err().code, ErrorCode::InvalidProjectChat);
    assert_eq!(check_snapshot_version("9223372036854775807", 0).unwrap_err().code, ErrorCode::InvalidProjectChat);
    assert!(check_snapshot_binding("h", "h", &None, "old").is_ok());
    assert!(check_snapshot_binding("h", "h", &Some("h".into()), "h").is_ok());
    assert_eq!(check_snapshot_binding("h", "h", &Some("h".into()), "old").unwrap_err().code, ErrorCode::InvalidProjectChat);
    assert_eq!(check_snapshot_binding("h", "x", &None, "h").unwrap_err().code, ErrorCode::InvalidProjectChat);
}

#[test]
fn committed_targets_land_at_the_next_version() {
    let target = PreviewTargetRef { document_id: "a".into(), title: "Mara".into(), kind: "character".into(), before_version: Some("3".into()) };
    let committed = |version: &str| Ok(CommittedDocument { role: "ordinary".into(), head: head("a", version), body_matches: true });
    let body: Result<String, CoreError> = Ok("ab".repeat(32));
    assert!(check_committed_target(&target, &document_ref("a", "ordinary"), committed("4"), body.clone()).is_ok());
    assert_eq!(
        check_committed_target(&target, &document_ref("a", "ordinary"), committed("3"), body.clone()).unwrap_err().code,
        ErrorCode::InvalidProjectChat
    );
    let fresh = PreviewTargetRef { before_version: None, ..target };
    assert!(check_committed_target(&fresh, &document_ref("a", "ordinary"), committed("0"), body.clone()).is_ok());
    assert_eq!(
        check_committed_target(&fresh, &document_ref("a", "assistantDraft"), committed("0"), body).unwrap_err().code,
        ErrorCode::InvalidProjectChat
    );
}

#[test]
fn committed_relationships_anchor_at_committed_heads() {
    let effects = ChatAdoptionEffects {
        version: "v".into(),
        source_output_hash: "0".repeat(64),
        relationship_dependencies: vec![],
        protected_content: vec![],
        proposed_relationships: vec![relationship("a", "b")],
        impacts: vec![],
        supersessions: vec![],
        placements: vec![],
    };
    let committed = materialize_chat_relationships(&effects, &vec![head("a", "7")]);
    assert_eq!(committed.len(), 1);
    assert_eq!(committed[0].id, "rel-1");
    assert_eq!(committed[0].from_head.version, "7");
    assert_eq!(committed[0].to_head.version, "1");
}

#[test]
fn an_adoption_operation_replays_only_its_own_receipt() {
    assert_eq!(existing_receipt(false, &None, "h").unwrap(), false);
    assert_eq!(existing_receipt(true, &None, "h").unwrap_err().code, ErrorCode::OperationIdReusedWithDifferentPayload);
    assert_eq!(existing_receipt(false, &Some(("adoptChatPreview".into(), "h".into())), "h").unwrap(), true);
    assert_eq!(
        existing_receipt(false, &Some(("adoptChatPreview".into(), "other".into())), "h").unwrap_err().code,
        ErrorCode::OperationIdReusedWithDifferentPayload
    );
    assert_eq!(
        existing_receipt(false, &Some(("saveWorkshop".into(), "h".into())), "h").unwrap_err().code,
        ErrorCode::OperationIdReusedWithDifferentPayload
    );
}

#[test]
fn historical_endpoints_are_retained_ordinary_material() {
    let endpoint = head("a", "4");
    let character: Result<(String, String), CoreError> = Ok(("ordinary".into(), "character".into()));
    assert!(validate_historical_relationship_endpoint(&endpoint, character.clone(), Ok(Some(head("a", "4")))).is_ok());
    assert_eq!(
        validate_historical_relationship_endpoint(&endpoint, character.clone(), Ok(None)).unwrap_err().code,
        ErrorCode::InvalidProjectChat
    );
    assert_eq!(
        validate_historical_relationship_endpoint(&endpoint, character, Ok(Some(head("a", "5")))).unwrap_err().code,
        ErrorCode::InvalidProjectChat
    );
    let chapter: Result<(String, String), CoreError> = Ok(("ordinary".into(), "chapter".into()));
    assert_eq!(
        validate_historical_relationship_endpoint(&endpoint, chapter, Ok(Some(head("a", "4")))).unwrap_err().code,
        ErrorCode::InvalidProjectChat
    );
}

fn preview_target(before: Option<StoredDocumentRef>) -> StoredPreviewTarget {
    StoredPreviewTarget {
        draft_document_id: "draft-1".into(),
        disposition_version: "2".into(),
        ref_document_id: "draft-1".into(),
        ref_disposition_version: "2".into(),
        ref_head: head("draft-1", "3"),
        draft_revision_id: "rev-9".into(),
        document_id: "a".into(),
        before,
    }
}

#[test]
fn a_stored_preview_target_is_consistent() {
    let t = preview_target(Some(document_ref("a", "ordinary")));
    assert!(check_stored_preview_target(&vec![], &t, "assistantDraft", Ok(()), Ok(head("draft-1", "3")), Ok(()), &None).is_ok());
    assert_eq!(
        check_stored_preview_target(&vec!["a".to_string()], &t, "assistantDraft", Ok(()), Ok(head("draft-1", "3")), Ok(()), &None)
            .unwrap_err()
            .code,
        ErrorCode::InvalidProjectChat
    );
    assert_eq!(
        check_stored_preview_target(&vec![], &t, "ordinary", Ok(()), Ok(head("draft-1", "3")), Ok(()), &None).unwrap_err().code,
        ErrorCode::InvalidProjectChat
    );
    assert_eq!(
        check_stored_preview_target(&vec![], &t, "assistantDraft", Ok(()), Ok(head("draft-1", "4")), Ok(()), &None).unwrap_err().code,
        ErrorCode::InvalidProjectChat
    );
    let fresh = preview_target(None);
    assert_eq!(
        check_stored_preview_target(&vec![], &fresh, "assistantDraft", Ok(()), Ok(head("draft-1", "3")), Ok(()), &Some("assistantDraft".into()))
            .unwrap_err()
            .code,
        ErrorCode::InvalidProjectChat
    );
    assert!(check_stored_preview_target(&vec![], &fresh, "assistantDraft", Ok(()), Ok(head("draft-1", "3")), Ok(()), &None).is_ok());
}

#[test]
fn body_text_joins_blocks_with_blank_lines() {
    let blocks = vec![
        vec![BodyNode::Text(Some("Hello".to_string())), BodyNode::HardBreak, BodyNode::Text(Some("world".to_string()))],
        vec![],
        vec![BodyNode::Text(None), BodyNode::Text(Some("End".to_string()))],
    ];
    assert_eq!(body_text(&blocks), "Hello\nworld\n\n\n\nEnd");
    assert_eq!(body_text(&Vec::new()), "");
    assert_eq!(body_text(&vec![vec![BodyNode::HardBreak]]), "\n");
}

#[test]
fn workshop_version_defaults_to_zero() {
    assert_eq!(current_workshop_version(None).unwrap(), "0");
    assert_eq!(current_workshop_version(Some(12)).unwrap(), "12");
    assert_eq!(current_workshop_version(Some(-1)).unwrap_err().code, ErrorCode::InvalidProject);
}

#[test]
fn draft_reference_names_an_exact_head_and_disposition() {
    let good = DraftRefInput { head: Some(head("draft-1", "4")), disposition_version: Some(VersionField::Number(2)) };
    let fields = draft_ref_fields(&good).unwrap();
    assert_eq!(fields.document_id, "draft-1");
    assert_eq!(fields.head.version, "4");
    assert_eq!(fields.disposition_version, "2");
    let text = DraftRefInput { head: Some(head("draft-1", "4")), disposition_version: Some(VersionField::Text("7".into())) };
    assert_eq!(draft_disposition_version(&text).unwrap(), "7");
    let cases = vec![
        DraftRefInput { head: None, disposition_version: Some(VersionField::Number(2)) },
        DraftRefInput { head: Some(head("draft-1", "4")), disposition_version: None },
        DraftRefInput { head: Some(head("draft-1", "4")), disposition_version: Some(VersionField::Number(-1)) },
        DraftRefInput { head: Some(head("draft-1", "x")), disposition_version: Some(VersionField::Number(1)) },
        DraftRefInput { head: Some(Head { document_id: "d".into(), version: "1".into(), body_hash: "AB".repeat(32) }), disposition_version: Some(VersionField::Number(1)) },
    ];
    for case in cases {
        assert_eq!(draft_ref_fields(&case).unwrap_err().code, ErrorCode::InvalidRequest);
    }
}

fn prepared(draft: &str, target: Option<&str>, reserved: &str) -> PreparedDraft {
    PreparedDraft {
        draft_document_id: draft.into(),
        disposition_version: "1".into(),
        draft_checks: Ok(()),
        draft_revision_id: format!("rev-{}", draft),
        draft_title: format!("Draft {}", draft),
        draft_kind: "character".into(),
        target_document_id: target.map(|t| t.to_string()),
        target_checks: Ok(PreparedTargetDocument { title: "Mara".into(), kind: "world".into() }),
        reserved_document_id: reserved.into(),
    }
}

#[test]
fn a_prepared_preview_has_one_distinct_target_per_draft() {
    let drafts = vec![prepared("d1", Some("doc-1"), "new-1"), prepared("d2", None, "new-2")];
    let targets = plan_preview_targets(&drafts).unwrap();
    assert_eq!(targets.len(), 2);
    assert_eq!(targets[0].document_id, "doc-1");
    assert_eq!(targets[0].title, "Mara");
    assert!(targets[0].revises);
    assert_eq!(targets[1].document_id, "new-2");
    assert_eq!(targets[1].title, "Draft d2");
    assert_eq!(targets[1].draft_revision_id, "rev-d2");
    assert!(!targets[1].revises);
    let plan = preview_plan(&access(), "conv-1", "preview-1".into(), "4".into(), "2".into(), "9".into(), targets);
    assert_eq!(plan.version, "1");
    assert_eq!(plan.conversation_id, "conv-1");
    assert_eq!(plan.targets.len(), 2);

    let repeated = vec![prepared("d1", None, "new-1"), prepared("d1", None, "new-2")];
    assert_eq!(plan_preview_targets(&repeated).unwrap_err().code, ErrorCode::InvalidRequest);
    let same_target = vec![prepared("d1", Some("doc-1"), "new-1"), prepared("d2", Some("doc-1"), "new-2")];
    assert_eq!(plan_preview_targets(&same_target).unwrap_err().code, ErrorCode::InvalidRequest);
    let mut stale = prepared("d2", None, "new-2");
    stale.draft_checks = Err(CoreError::new(ErrorCode::ContextChanged, "stale"));
    let with_stale = vec![prepared("d1", None, "new-1"), stale];
    assert_eq!(plan_preview_targets(&with_stale).unwrap_err().code, ErrorCode::ContextChanged);
}

fn effects_with(relationships: Vec<ChatAdoptionRelationship>) -> ChatAdoptionEffects {
    ChatAdoptionEffects {
        version: "v".into(),
        source_output_hash: "0".repeat(64),
        relationship_dependencies: vec![],
        protected_content: vec![],
        proposed_relationships: relationships,
        impacts: vec![],
        supersessions: vec![],
        placements: vec![],
    }
}

fn committed(id: &str, from: Head, to: Head) -> CommittedRelationship {
    CommittedRelationship {
        id: id.into(),
        from_document_id: from.document_id.clone(),
        to_document_id: to.document_id.clone(),
        relationship_type: "rivals".into(),
        description: "Old rivals.".into(),
        uncertainty: "low".into(),
        from_head: from,
        to_head: to,
    }
}

fn state(relationships: Vec<CommittedRelationship>) -> WorkshopStateRecord {
    WorkshopStateRecord { relationships, rest_json: "{}".into() }
}

#[test]
fn a_chat_snapshot_appends_exactly_the_committed_relationships() {
    let effects = effects_with(vec![relationship("a", "b")]);
    assert!(effects_equal(&effects, &effects_with(vec![relationship("a", "b")])));
    assert!(!effects_equal(&effects, &effects_with(vec![relationship("a", "c")])));
    let old = committed("rel-0", head("x", "1"), head("y", "1"));
    let previous = state(vec![old]);
    let next = state(vec![committed("rel-0", head("x", "1"), head("y", "1")), committed("rel-1", head("a", "7"), head("b", "1"))]);
    assert!(check_snapshot_transition(&next, &previous, &effects, &vec![head("a", "7")]).is_ok());
    let unanchored = state(vec![committed("rel-0", head("x", "1"), head("y", "1")), committed("rel-1", head("a", "1"), head("b", "1"))]);
    assert_eq!(check_snapshot_transition(&unanchored, &previous, &effects, &vec![head("a", "7")]).unwrap_err().code, ErrorCode::InvalidProjectChat);
    let mut changed_rest = state(vec![committed("rel-0", head("x", "1"), head("y", "1")), committed("rel-1", head("a", "7"), head("b", "1"))]);
    changed_rest.rest_json = "{\"x\":1}".into();
    assert_eq!(check_snapshot_transition(&changed_rest, &previous, &effects, &vec![head("a", "7")]).unwrap_err().code, ErrorCode::InvalidProjectChat);
    assert_eq!(check_snapshot_transition(&previous, &previous, &effects, &vec![head("a", "7")]).unwrap_err().code, ErrorCode::InvalidProjectChat);
}

fn snapshot_reads(snapshot_version: i64) -> ChatSnapshotReads {
    let decision_json = "{\"decision\":1}".to_string();
    let preview_json = "{\"preview\":1}".to_string();
    let target_head = Head { document_id: "doc-1".into(), version: "0".into(), body_hash: "cd".repeat(32) };
    let reference = StoredDocumentRef {
        head: target_head.clone(),
        title: "Mara".into(),
        kind: "character".into(),
        metadata_version: "1".into(),
        last_checkpoint_id: Some("rev-1".into()),
        role: "ordinary".into(),
    };
    let receipt = AdoptionReceipt { preview_id: "preview-1".into(), decision_id: "decision-1".into(), documents: vec![reference] };
    let effects = || effects_with(vec![relationship("doc-1", "b")]);
    ChatSnapshotReads {
        project_id: "project".into(),
        namespace: "namespace".into(),
        snapshot_version,
        snapshot_payload_hash: "e".repeat(64),
        command: Some(CommandReceiptRow { document_id: "doc-1".into(), payload_hash: "e".repeat(64), operation_kind: "adoptChatPreview".into() }),
        receipt: Ok(receipt),
        decision_rows: vec![DecisionRow {
            conversation_id: "conv-1".into(),
            project_id: "project".into(),
            operation_namespace: "namespace".into(),
            reference_id: Some("decision-1".into()),
            payload_hash: sha256_hex(decision_json.as_bytes()),
            payload_json: decision_json,
        }],
        decision: Ok(StoredDecision {
            schema_version: "chat-adoption-decision.v1".into(),
            decision_id: "decision-1".into(),
            preview_id: "preview-1".into(),
            preview_version: "1".into(),
            preview_digest: "digest".into(),
            effects: Some(effects()),
            document_ids: vec!["doc-1".into()],
            snapshot_payload_hash: Some("e".repeat(64)),
        }),
        preview_row: Some(PreviewRow { payload_hash: sha256_hex(preview_json.as_bytes()), payload_json: preview_json, project_id: "project".into() }),
        preview_checks: Ok(()),
        preview: ExpandedPreview {
            id: "preview-1".into(),
            conversation_id: "conv-1".into(),
            project_id: "project".into(),
            operation_namespace: "namespace".into(),
            version: "1".into(),
            digest: "digest".into(),
            workshop_version: "4".into(),
            effects: Some(effects()),
            target_ids: vec!["doc-1".into()],
        },
        targets: vec![PreviewTargetRef { document_id: "doc-1".into(), title: "Mara".into(), kind: "character".into(), before_version: None }],
        committed: vec![Ok(CommittedDocument { role: "ordinary".into(), head: target_head, body_matches: true })],
        body_hashes: vec![Ok("cd".repeat(32))],
        state: state(vec![committed("rel-1", Head { document_id: "doc-1".into(), version: "0".into(), body_hash: "cd".repeat(32) }, head("b", "1"))]),
        previous_state: state(vec![]),
        expected_command_hash: "e".repeat(64),
    }
}

#[test]
fn a_whole_chat_snapshot_validates_against_its_records() {
    assert!(validate_chat_workshop_snapshot(snapshot_reads(5)).is_ok());
    assert_eq!(validate_chat_workshop_snapshot(snapshot_reads(6)).unwrap_err().code, ErrorCode::InvalidProjectChat);
    let mut two_decisions = snapshot_reads(5);
    let extra = two_decisions.decision_rows[0].payload_json.clone();
    two_decisions.decision_rows.push(DecisionRow {
        conversation_id: "conv-1".into(),
        project_id: "project".into(),
        operation_namespace: "namespace".into(),
        reference_id: Some("decision-1".into()),
        payload_hash: sha256_hex(extra.as_bytes()),
        payload_json: extra,
    });
    assert_eq!(validate_chat_workshop_snapshot(two_decisions).unwrap_err().code, ErrorCode::InvalidProjectChat);
    let mut no_receipt = snapshot_reads(5);
    no_receipt.command = None;
    assert_eq!(validate_chat_workshop_snapshot(no_receipt).unwrap_err().code, ErrorCode::InvalidProjectChat);
    let mut wrong_state = snapshot_reads(5);
    wrong_state.state = state(vec![]);
    assert_eq!(validate_chat_workshop_snapshot(wrong_state).unwrap_err().code, ErrorCode::InvalidProjectChat);
}

#[test]
fn an_identical_prepare_replays_its_preview() {
    assert!(matches!(prepare_step(&None, "h").unwrap(), PrepareStep::Proceed));
    assert!(matches!(prepare_step(&Some(("adoptionPreview".into(), "h".into())), "h").unwrap(), PrepareStep::Replay));
    assert_eq!(
        prepare_step(&Some(("adoptionPreview".into(), "other".into())), "h").unwrap_err().code,
        ErrorCode::OperationIdReusedWithDifferentPayload
    );
    assert_eq!(
        prepare_step(&Some(("saveAssistantDraft".into(), "h".into())), "h").unwrap_err().code,
        ErrorCode::OperationIdReusedWithDifferentPayload
    );
}

fn group_relationship(from: &str, to: &str) -> GroupRelationshipOutput {
    GroupRelationshipOutput {
        key: "r1".into(),
        from_ref: from.into(),
        to_ref: to.into(),
        relationship_type: "rivals".into(),
        description: "Old rivals.".into(),
        uncertainty: "low".into(),
    }
}

#[test]
fn proposed_relationships_resolve_both_ends() {
    let draft_keys = vec!["key-d1".to_string()];
    let draft_targets = vec![target("d1", "character")];
    let handles = vec![target("s1", "world"), target("s2", "scene")];
    let target_ids = vec!["d1".to_string()];
    let ids = vec!["rel-9".to_string()];
    let made = assemble_relationships(&vec![group_relationship("key-d1", "key-s1")], &ids, &draft_keys, &draft_targets, &handles, &target_ids).unwrap();
    assert_eq!(made.len(), 1);
    assert_eq!(made[0].relationship_id, "rel-9");
    assert_eq!(made[0].from_document_id, "d1");
    assert_eq!(made[0].to_document_id, "s1");
    for bad in [group_relationship("key-d1", "key-s2"), group_relationship("key-d1", "nowhere")] {
        let err = assemble_relationships(&vec![bad], &ids, &draft_keys, &draft_targets, &handles, &target_ids).unwrap_err();
        assert_eq!(err.code, ErrorCode::InvalidRequest);
    }
    let effects = adoption_effects("0".repeat(64), vec![], vec![], made);
    assert_eq!(effects.version, "chat-adoption-effects.v1");
    assert_eq!(effects.proposed_relationships.len(), 1);
    assert!(effects.impacts.is_empty() && effects.supersessions.is_empty() && effects.placements.is_empty());
}
