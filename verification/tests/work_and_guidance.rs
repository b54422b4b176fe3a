use conversation::background::{
    background_record, collect_stop_outcomes, validate_expected_background_work, BackgroundWork,
    BackgroundWorkKind, BackgroundWorkStatus, StoredJob,
};
use conversation::error::{CoreError, ErrorCode};
use conversation::guidance::{
    plan_guidance_save, scope_as_str, validate_origin, validate_scope, GuidanceHead, GuidancePlan,
    GuidanceScope, SaveGuidance,
};
use conversation::guidance::{
    check_guidance_head_row, check_guidance_pin, check_guidance_receipt_row, check_guidance_use_row,
    check_guidance_version_links,
};
use conversation::vocab::ProjectAccess;

fn access() -> ProjectAccess {
    ProjectAccess {
        project_id: "project".into(),
        operation_namespace: "namespace".into(),
        session: "session".into(),
        writer_lease: "lease".into(),
    }
}

fn census(entries: &[(&str, &str, &str)]) -> BackgroundWork {
    BackgroundWork {
        items: entries
            .iter()
            .map(|(kind, id, status)| {
                background_record(&access(), kind, id.to_string(), format!("doc-{id}"), status, None).unwrap()
            })
            .collect(),
        errors: vec![],
    }
}

fn job(id: &str) -> Result<Option<StoredJob>, CoreError> {
    Ok(Some(StoredJob {
        project_id: "project".into(),
        operation_namespace: "namespace".into(),
        document_id: format!("doc-{id}"),
    }))
}

fn save(expected: &str, text: &str, scope: GuidanceScope, document: Option<&str>) -> SaveGuidance {
    SaveGuidance {
        access: access(),
        operation_id: "op".into(),
        guidance_id: "guidance".into(),
        expected_version: expected.into(),
        text: text.into(),
        scope,
        document_id: document.map(|d| d.to_string()),
        active: true,
        origin_message_id: None,
    }
}

fn head(version: u64, text: &str) -> GuidanceHead {
    GuidanceHead {
        guidance_id: "guidance".into(),
        version_id: format!("v{version}"),
        version,
        scope: GuidanceScope::Project,
        document_id: None,
        text: text.into(),
        text_hash: "0".repeat(64),
        active: true,
        origin_message_id: None,
        created_at: "2024-01-01T00:00:00Z".into(),
    }
}

#[test]
fn census_rows_read_their_stored_kind_and_status() {
    let item = background_record(&access(), "memory", "m1".into(), "doc".into(), "stopping", Some("Notes".into())).unwrap();
    assert_eq!(item.kind, BackgroundWorkKind::Memory);
    assert_eq!(item.status, BackgroundWorkStatus::Stopping);
    assert_eq!(item.project_id, "project");
    assert_eq!(item.title.as_deref(), Some("Notes"));
    assert_eq!(
        background_record(&access(), "sleep", "x".into(), "d".into(), "queued", None).unwrap_err().code,
        ErrorCode::InvalidProject
    );
    assert_eq!(BackgroundWorkStatus::parse("paused").unwrap_err().code, ErrorCode::InvalidProject);
    assert_eq!(BackgroundWorkStatus::Interrupted.as_str(), "interrupted");
}

#[test]
fn a_stop_census_must_be_the_sessions_own() {
    let work = census(&[("discussion", "a", "running"), ("memory", "b", "queued")]);
    assert!(validate_expected_background_work(&access(), &work, &vec![job("a"), job("b")]).is_ok());

    let repeated = census(&[("discussion", "a", "running"), ("memory", "a", "queued")]);
    assert_eq!(
        validate_expected_background_work(&access(), &repeated, &vec![job("a"), job("a")]).unwrap_err().code,
        ErrorCode::InvalidRequest
    );
    let finished = census(&[("discussion", "a", "completed")]);
    assert_eq!(
        validate_expected_background_work(&access(), &finished, &vec![job("a")]).unwrap_err().code,
        ErrorCode::InvalidRequest
    );
    assert_eq!(
        validate_expected_background_work(&access(), &work, &vec![job("a"), Ok(None)]).unwrap_err().code,
        ErrorCode::BackgroundWorkNotFound
    );
    assert_eq!(
        validate_expected_background_work(&access(), &work, &vec![job("a"), job("z")]).unwrap_err().code,
        ErrorCode::BackgroundWorkMismatch
    );
    let mut foreign = census(&[("discussion", "a", "running")]);
    foreign.items[0].operation_namespace = "other".into();
    assert_eq!(
        validate_expected_background_work(&access(), &foreign, &vec![job("a")]).unwrap_err().code,
        ErrorCode::WrongProjectSession
    );
}

#[test]
fn every_job_of_a_stop_pass_is_reported_once() {
    let work = census(&[("discussion", "a", "running"), ("memory", "b", "queued"), ("discussion", "c", "queued")]);
    let outcome = collect_stop_outcomes(
        &work,
        vec![
            Ok(BackgroundWorkStatus::Stopping),
            Err(CoreError::new(ErrorCode::RunSealed, "already finished")),
            Ok(BackgroundWorkStatus::Stopped),
        ],
    );
    let stopped: Vec<(&str, BackgroundWorkStatus)> =
        outcome.items.iter().map(|i| (i.id.as_str(), i.status)).collect();
    assert_eq!(stopped, vec![("a", BackgroundWorkStatus::Stopping), ("c", BackgroundWorkStatus::Stopped)]);
    assert_eq!(outcome.errors.len(), 1);
    assert_eq!(outcome.errors[0].item.id, "b");
    assert_eq!(outcome.errors[0].error.code, ErrorCode::RunSealed);
}

#[test]
fn guidance_versions_advance_by_compare_and_swap() {
    let create = save("0", "Keep the tone dry.", GuidanceScope::Project, None);
    assert_eq!(plan_guidance_save(&create, 0, &None).unwrap(), GuidancePlan::Append { version: 1, create_head: true });
    assert_eq!(plan_guidance_save(&create, 0, &Some(head(1, "x"))).unwrap_err().code, ErrorCode::GuidanceConflict);

    let edit = save("1", "Keep the tone warm.", GuidanceScope::Project, None);
    assert_eq!(
        plan_guidance_save(&edit, 1, &Some(head(1, "Keep the tone dry."))).unwrap(),
        GuidancePlan::Append { version: 2, create_head: false }
    );
    assert_eq!(
        plan_guidance_save(&edit, 1, &Some(head(2, "Keep the tone dry."))).unwrap_err().code,
        ErrorCode::GuidanceVersionConflict
    );
    assert_eq!(plan_guidance_save(&edit, 3, &None).unwrap_err().code, ErrorCode::GuidanceVersionConflict);
}

#[test]
fn saving_the_same_guidance_again_changes_nothing() {
    let repeat = save("4", "Keep the tone dry.", GuidanceScope::Project, None);
    assert_eq!(plan_guidance_save(&repeat, 4, &Some(head(4, "Keep the tone dry."))).unwrap(), GuidancePlan::Unchanged);
}

#[test]
fn guidance_scope_decides_its_target() {
    assert_eq!(scope_as_str(GuidanceScope::Request), "request");
    assert!(validate_scope(&save("0", "t", GuidanceScope::Project, None), Ok(true)).is_ok());
    assert_eq!(
        validate_scope(&save("0", "t", GuidanceScope::Project, Some("doc")), Ok(true)).unwrap_err().code,
        ErrorCode::InvalidRequest
    );
    assert_eq!(
        validate_scope(&save("0", "t", GuidanceScope::Document, None), Ok(true)).unwrap_err().code,
        ErrorCode::InvalidRequest
    );
    assert_eq!(
        validate_scope(&save("0", "t", GuidanceScope::Document, Some("doc")), Ok(false)).unwrap_err().code,
        ErrorCode::DocumentNotFound
    );
    assert!(validate_scope(&save("0", "t", GuidanceScope::Request, Some("doc")), Ok(true)).is_ok());
}

#[test]
fn guidance_provenance_comes_from_the_target_thread() {
    let mut request = save("0", "t", GuidanceScope::Document, Some("doc-a"));
    request.origin_message_id = Some("message-1".into());
    assert!(validate_origin(&request, Ok(Some("doc-a".into()))).is_ok());
    assert_eq!(
        validate_origin(&request, Ok(Some("doc-b".into()))).unwrap_err().code,
        ErrorCode::GuidanceOriginMismatch
    );
    assert_eq!(validate_origin(&request, Ok(None)).unwrap_err().code, ErrorCode::GuidanceOriginNotFound);
    let mut project = save("0", "t", GuidanceScope::Project, None);
    project.origin_message_id = Some("message-1".into());
    assert!(validate_origin(&project, Ok(Some("doc-b".into()))).is_ok());
}

#[test]
fn guidance_pins_match_their_versions() {
    let hash = Some("h1".to_string());
    assert!(check_guidance_pin("snap", "v1", "guidance-v1", "h1", true, &hash).is_ok());
    assert_eq!(check_guidance_pin("", "v1", "guidance-v1", "h1", true, &hash).unwrap_err().code, ErrorCode::InvalidRequest);
    assert_eq!(check_guidance_pin("snap", "v1", "guidance-v2", "h1", true, &hash).unwrap_err().code, ErrorCode::InvalidProject);
    assert_eq!(check_guidance_pin("snap", "v1", "guidance-v1", "h1", false, &hash).unwrap_err().code, ErrorCode::InvalidProject);
    assert_eq!(check_guidance_pin("snap", "v1", "guidance-v1", "h2", true, &hash).unwrap_err().code, ErrorCode::InvalidProject);
    assert_eq!(check_guidance_pin("snap", "v1", "guidance-v1", "h1", true, &None).unwrap_err().code, ErrorCode::InvalidProject);
}

#[test]
fn stored_guidance_rows_must_resolve() {
    assert!(check_guidance_version_links(Ok(()), None, Some(true)).is_ok());
    let refused = Err(CoreError::new(ErrorCode::InvalidContext, "bad"));
    assert_eq!(check_guidance_version_links(refused, Some(false), None).unwrap_err().code, ErrorCode::InvalidContext);
    assert_eq!(check_guidance_version_links(Ok(()), Some(false), None).unwrap_err().code, ErrorCode::InvalidProject);
    assert_eq!(check_guidance_version_links(Ok(()), Some(true), Some(false)).unwrap_err().code, ErrorCode::InvalidProject);

    assert!(check_guidance_head_row("g1", "v1", &Some("g1".to_string())).is_ok());
    assert_eq!(check_guidance_head_row("g1", "v1", &Some("g2".to_string())).unwrap_err().code, ErrorCode::InvalidProject);
    assert_eq!(check_guidance_head_row("g1", "v1", &None).unwrap_err().code, ErrorCode::InvalidProject);
    assert_eq!(check_guidance_head_row("g 1", "v1", &None).unwrap_err().code, ErrorCode::InvalidRequest);

    assert!(check_guidance_receipt_row("ns", "op", "p", "saveGuidance", true).is_ok());
    assert_eq!(check_guidance_receipt_row("ns", "op", "p", "other", true).unwrap_err().code, ErrorCode::InvalidProject);
    assert_eq!(check_guidance_receipt_row("ns", "op", "p", "saveGuidance", false).unwrap_err().code, ErrorCode::InvalidProject);

    assert!(check_guidance_use_row(&Some("request".to_string()), true).is_ok());
    assert_eq!(check_guidance_use_row(&Some("document".to_string()), true).unwrap_err().code, ErrorCode::InvalidProject);
    assert_eq!(check_guidance_use_row(&Some("request".to_string()), false).unwrap_err().code, ErrorCode::InvalidProject);
}
