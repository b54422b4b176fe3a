use conversation::draft::{save_discussion_draft, validate_draft_request, DraftSave, SaveDiscussionDraft};
use conversation::error::{CoreError, ErrorCode};
use conversation::request::{BasisKind, DiscussionScopeInput, FeedbackIntent, ScopeKind};
use conversation::retry::PreviousRunRow;
use conversation::start::{capture_discussion_scope, CapturedScope};
use conversation::vocab::{DiscussionRunStatus, LookupAllowance, ProjectAccess};

fn access() -> ProjectAccess {
    ProjectAccess {
        project_id: "project".into(),
        operation_namespace: "namespace".into(),
        session: "session".into(),
        writer_lease: "lease".into(),
    }
}

fn draft(expected: &str) -> SaveDiscussionDraft {
    SaveDiscussionDraft {
        access: access(),
        operation_id: "save-1".into(),
        document_id: "doc-1".into(),
        expected_version: expected.into(),
        text: "Tighten the opening.".into(),
        intent: FeedbackIntent::Discuss,
        basis: None,
        scope: None,
        pinned_document_ids: vec!["doc-2".into()],
        safe_brief: None,
        previous_run_id: None,
        lookup: None,
    }
}

fn no_previous() -> Result<Option<PreviousRunRow>, CoreError> {
    Ok(None)
}

fn save(request: &SaveDiscussionDraft, receipt: Option<&str>, current: Option<i64>) -> Result<DraftSave, CoreError> {
    save_discussion_draft(
        request,
        "hash-a",
        Ok(receipt.map(|r| r.to_string())),
        Ok(()),
        no_previous(),
        Ok(FeedbackIntent::Discuss),
        Ok(current),
    )
}

#[test]
fn a_first_draft_is_saved_at_version_one() {
    assert_eq!(save(&draft("0"), None, None).unwrap(), DraftSave::Write { version: 1 });
    assert_eq!(save(&draft("4"), None, Some(4)).unwrap(), DraftSave::Write { version: 5 });
}

#[test]
fn a_stale_draft_version_is_refused() {
    assert_eq!(save(&draft("3"), None, Some(4)).unwrap_err().code, ErrorCode::DraftVersionConflict);
    assert_eq!(save(&draft("1"), None, None).unwrap_err().code, ErrorCode::DraftVersionConflict);
}

#[test]
fn a_repeated_draft_operation_replays_only_its_own_payload() {
    assert_eq!(save(&draft("4"), Some("hash-a"), Some(5)).unwrap(), DraftSave::Replayed);
    assert_eq!(
        save(&draft("4"), Some("hash-b"), Some(5)).unwrap_err().code,
        ErrorCode::OperationIdReusedWithDifferentPayload
    );
}

#[test]
fn draft_shape_is_checked_before_anything_is_read() {
    let mut bad_pin = draft("0");
    bad_pin.pinned_document_ids = vec!["bad pin".into()];
    assert_eq!(validate_draft_request(&bad_pin).unwrap_err().code, ErrorCode::InvalidRequest);
    let mut too_many = draft("0");
    too_many.pinned_document_ids = (0..65).map(|i| format!("doc-{i}")).collect();
    assert_eq!(validate_draft_request(&too_many).unwrap_err().code, ErrorCode::InvalidRequest);
    let mut big_quote = draft("0");
    big_quote.scope = Some(DiscussionScopeInput {
        kind: ScopeKind::Passage,
        start: "0".into(),
        end: "1".into(),
        quote: "q".repeat(256 * 1024 + 1),
        source_body_hash: "a".repeat(64),
    });
    assert_eq!(validate_draft_request(&big_quote).unwrap_err().code, ErrorCode::InvalidScope);
    let mut continuation = draft("0");
    continuation.intent = FeedbackIntent::Continue;
    assert_eq!(validate_draft_request(&continuation).unwrap_err().code, ErrorCode::InvalidContinuationBasis);
    continuation.basis = Some(BasisKind::Working);
    assert!(validate_draft_request(&continuation).is_ok());
    let mut lookup = draft("0");
    lookup.intent = FeedbackIntent::ProposeEdits;
    lookup.lookup = Some(LookupAllowance {
        max_additional_invocations: 1,
        total_input_bytes: "100".into(),
        total_output_bytes: "100".into(),
        validation_error: None,
    });
    assert_eq!(validate_draft_request(&lookup).unwrap_err().code, ErrorCode::UnsupportedContextTools);
    let mut bad_version = draft("01");
    bad_version.expected_version = "01".into();
    assert_eq!(validate_draft_request(&bad_version).unwrap_err().code, ErrorCode::InvalidRequest);
}

#[test]
fn a_retry_draft_keeps_its_previous_intent() {
    let mut retry = draft("0");
    retry.previous_run_id = Some("run-9".into());
    let row = || {
        Ok(Some(PreviousRunRow {
            project_id: "project".into(),
            operation_namespace: "namespace".into(),
            target_document_id: "doc-1".into(),
            status: DiscussionRunStatus::Failed,
        }))
    };
    let same = save_discussion_draft(&retry, "h", Ok(None), Ok(()), row(), Ok(FeedbackIntent::Discuss), Ok(None));
    assert_eq!(same.unwrap(), DraftSave::Write { version: 1 });
    let changed = save_discussion_draft(&retry, "h", Ok(None), Ok(()), row(), Ok(FeedbackIntent::ProposeEdits), Ok(None));
    assert_eq!(changed.unwrap_err().code, ErrorCode::RetryRequestChanged);
    let missing = save_discussion_draft(&retry, "h", Ok(None), Ok(()), Ok(None), Ok(FeedbackIntent::Discuss), Ok(None));
    assert_eq!(missing.unwrap_err().code, ErrorCode::PreviousRunNotFound);
    let gone = save_discussion_draft(
        &retry,
        "h",
        Ok(None),
        Err(CoreError::new(ErrorCode::DocumentNotFound, "missing")),
        row(),
        Ok(FeedbackIntent::Discuss),
        Ok(None),
    );
    assert_eq!(gone.unwrap_err().code, ErrorCode::DocumentNotFound);
}

#[test]
fn an_exhausted_draft_version_is_refused() {
    let last = draft("9223372036854775807");
    assert_eq!(save(&last, None, Some(i64::MAX)).unwrap_err().code, ErrorCode::InvalidRequest);
}

#[test]
fn a_scope_must_be_captured_from_the_exact_revision() {
    let scope = DiscussionScopeInput {
        kind: ScopeKind::Passage,
        start: "0".into(),
        end: "5".into(),
        quote: "Hello".into(),
        source_body_hash: "c".repeat(64),
    };
    let captured = || Ok(CapturedScope { source_hash: "c".repeat(64), quote: "Hello".into() });
    let kept = capture_discussion_scope(Some(&scope), captured(), Ok(())).unwrap().unwrap();
    assert_eq!(kept.quote, "Hello");
    assert!(capture_discussion_scope(None, captured(), Ok(())).unwrap().is_none());
    let moved = Ok(CapturedScope { source_hash: "d".repeat(64), quote: "Hello".into() });
    assert_eq!(capture_discussion_scope(Some(&scope), moved, Ok(())).unwrap_err().code, ErrorCode::InvalidScope);
    assert_eq!(
        capture_discussion_scope(Some(&scope), captured(), Err("out of range".into())).unwrap_err().code,
        ErrorCode::InvalidScope
    );
}
