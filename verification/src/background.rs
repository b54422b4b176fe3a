//! Background work of the current project session: the census of active
//! discussion and memory jobs, the check a stop census must pass, and how the
//! per-job stop outcomes are reported back.
use vstd::prelude::*;
use crate::error::{CoreError, ErrorCode, fails_with};
use crate::lifecycle::{sealed, stop_settled_text};
use crate::operations::{stop_event_id, stopping};
use crate::vocab::{clone_opt_string, str_eq, DiscussionRun, DiscussionRunStatus, ProjectAccess, RunChange};

verus! {

broadcast use vstd::string::group_string_axioms;

#[derive(Debug, Clone, Copy, PartialEq, Eq, Structural)]
pub enum BackgroundWorkKind {
    Discussion,
    Memory,
}

impl BackgroundWorkKind {
    pub open spec fn spec_name(self) -> Seq<char> {
        match self {
            BackgroundWorkKind::Discussion => "discussion"@,
            BackgroundWorkKind::Memory => "memory"@,
        }
    }

    /// Reads a stored job kind back.
    pub fn parse(value: &str) -> (r: Result<BackgroundWorkKind, CoreError>)
        ensures
            r matches Ok(k) ==> k.spec_name() == value@,
            r is Err ==> forall|k: BackgroundWorkKind| k.spec_name() != value@,
            r matches Err(e) ==> e.code == ErrorCode::InvalidProject,
    {
        proof {
            reveal_strlit("discussion");
            reveal_strlit("memory");
        }
        if str_eq(value, "discussion") {
            Ok(BackgroundWorkKind::Discussion)
        } else if str_eq(value, "memory") {
            Ok(BackgroundWorkKind::Memory)
        } else {
            assert forall|k: BackgroundWorkKind| k.spec_name() != value@ by {
                match k {
                    BackgroundWorkKind::Discussion => {},
                    BackgroundWorkKind::Memory => {},
                }
            }
            Err(CoreError::new(ErrorCode::InvalidProject, "The saved background job has an unknown kind."))
        }
    }
}

#[derive(Debug, Clone, Copy, PartialEq, Eq, Structural)]
pub enum BackgroundWorkStatus {
    Queued,
    Running,
    Stopping,
    Completed,
    Stopped,
    Failed,
    Interrupted,
}

impl BackgroundWorkStatus {
    pub open spec fn spec_name(self) -> Seq<char> {
        match self {
            BackgroundWorkStatus::Queued => "queued"@,
            BackgroundWorkStatus::Running => "running"@,
            BackgroundWorkStatus::Stopping => "stopping"@,
            BackgroundWorkStatus::Completed => "completed"@,
            BackgroundWorkStatus::Stopped => "stopped"@,
            BackgroundWorkStatus::Failed => "failed"@,
            BackgroundWorkStatus::Interrupted => "interrupted"@,
        }
    }

    pub open spec fn spec_active(self) -> bool {
        self is Queued || self is Running || self is Stopping
    }

    pub fn as_str(&self) -> (r: &'static str)
        ensures
            r@ == self.spec_name(),
    {
        match self {
            BackgroundWorkStatus::Queued => "queued",
            BackgroundWorkStatus::Running => "running",
            BackgroundWorkStatus::Stopping => "stopping",
            BackgroundWorkStatus::Completed => "completed",
            BackgroundWorkStatus::Stopped => "stopped",
            BackgroundWorkStatus::Failed => "failed",
            BackgroundWorkStatus::Interrupted => "interrupted",
        }
    }

    /// Reads a stored job status back.
    pub fn parse(value: &str) -> (r: Result<BackgroundWorkStatus, CoreError>)
        ensures
            r matches Ok(s) ==> s.spec_name() == value@,
            r is Err ==> forall|s: BackgroundWorkStatus| s.spec_name() != value@,
            r matches Err(e) ==> e.code == ErrorCode::InvalidProject,
    {
        let all = [
            BackgroundWorkStatus::Queued,
            BackgroundWorkStatus::Running,
            BackgroundWorkStatus::Stopping,
            BackgroundWorkStatus::Completed,
            BackgroundWorkStatus::Stopped,
            BackgroundWorkStatus::Failed,
            BackgroundWorkStatus::Interrupted,
        ];
        let mut i: usize = 0;
        while i < 7
            invariant
                0 <= i <= 7,
                all@ == seq![
                    BackgroundWorkStatus::Queued,
                    BackgroundWorkStatus::Running,
                    BackgroundWorkStatus::Stopping,
                    BackgroundWorkStatus::Completed,
                    BackgroundWorkStatus::Stopped,
                    BackgroundWorkStatus::Failed,
                    BackgroundWorkStatus::Interrupted,
                ],
                forall|j: int| 0 <= j < i ==> (#[trigger] all@[j]).spec_name() != value@,
            decreases 7 - i,
        {
            if str_eq(all[i].as_str(), value) {
                return Ok(all[i]);
            }
            i += 1;
        }
        assert forall|s: BackgroundWorkStatus| s.spec_name() != value@ by {
            match s {
                BackgroundWorkStatus::Queued => assert(all@[0] == s),
                BackgroundWorkStatus::Running => assert(all@[1] == s),
                BackgroundWorkStatus::Stopping => assert(all@[2] == s),
                BackgroundWorkStatus::Completed => assert(all@[3] == s),
                BackgroundWorkStatus::Stopped => assert(all@[4] == s),
                BackgroundWorkStatus::Failed => assert(all@[5] == s),
                BackgroundWorkStatus::Interrupted => assert(all@[6] == s),
            }
        }
        Err(CoreError::new(ErrorCode::InvalidProject, "The saved background job has an unknown status."))
    }
}

/// A discussion run's status as background work.
pub open spec fn run_work_status(status: DiscussionRunStatus) -> BackgroundWorkStatus {
    match status {
        DiscussionRunStatus::Queued => BackgroundWorkStatus::Queued,
        DiscussionRunStatus::Running => BackgroundWorkStatus::Running,
        DiscussionRunStatus::Stopping => BackgroundWorkStatus::Stopping,
        DiscussionRunStatus::Completed => BackgroundWorkStatus::Completed,
        DiscussionRunStatus::Stopped => BackgroundWorkStatus::Stopped,
        DiscussionRunStatus::Failed => BackgroundWorkStatus::Failed,
        DiscussionRunStatus::Interrupted => BackgroundWorkStatus::Interrupted,
    }
}

impl From<DiscussionRunStatus> for BackgroundWorkStatus {
    fn from(status: DiscussionRunStatus) -> (r: BackgroundWorkStatus) {
        match status {
            DiscussionRunStatus::Queued => BackgroundWorkStatus::Queued,
            DiscussionRunStatus::Running => BackgroundWorkStatus::Running,
            DiscussionRunStatus::Stopping => BackgroundWorkStatus::Stopping,
            DiscussionRunStatus::Completed => BackgroundWorkStatus::Completed,
            DiscussionRunStatus::Stopped => BackgroundWorkStatus::Stopped,
            DiscussionRunStatus::Failed => BackgroundWorkStatus::Failed,
            DiscussionRunStatus::Interrupted => BackgroundWorkStatus::Interrupted,
        }
    }
}

impl vstd::std_specs::convert::FromSpecImpl<DiscussionRunStatus> for BackgroundWorkStatus {
    open spec fn obeys_from_spec() -> bool {
        true
    }

    open spec fn from_spec(v: DiscussionRunStatus) -> BackgroundWorkStatus {
        run_work_status(v)
    }
}

/// One active job of the session, as the census captured it.
#[derive(Debug)]
pub struct BackgroundWorkItem {
    pub kind: BackgroundWorkKind,
    pub id: String,
    pub document_id: String,
    pub status: BackgroundWorkStatus,
    pub project_id: String,
    pub operation_namespace: String,
    pub title: Option<String>,
}

impl Clone for BackgroundWorkItem {
    fn clone(&self) -> (r: Self)
        ensures
            r == *self,
    {
        BackgroundWorkItem {
            kind: self.kind,
            id: self.id.clone(),
            document_id: self.document_id.clone(),
            status: self.status,
            project_id: self.project_id.clone(),
            operation_namespace: self.operation_namespace.clone(),
            title: clone_opt_string(&self.title),
        }
    }
}

/// A job whose stop request failed, with the failure.
#[derive(Debug)]
pub struct BackgroundWorkError {
    pub item: BackgroundWorkItem,
    pub error: CoreError,
}

/// A census of active jobs, or the outcome of stopping one: the jobs that
/// were stopped and the jobs whose stop failed.
#[derive(Debug)]
pub struct BackgroundWork {
    pub items: Vec<BackgroundWorkItem>,
    pub errors: Vec<BackgroundWorkError>,
}

/// Builds one census entry from a stored job row of the session's namespace.
pub fn background_record(
    access: &ProjectAccess,
    kind: &str,
    id: String,
    document_id: String,
    status: &str,
    title: Option<String>,
) -> (r: Result<BackgroundWorkItem, CoreError>)
    ensures
        (exists|k: BackgroundWorkKind| k.spec_name() == kind@) && (exists|s: BackgroundWorkStatus| s.spec_name() == status@)
            <==> r is Ok,
        r matches Ok(item) ==> item.kind.spec_name() == kind@ && item.status.spec_name() == status@ && item.id == id
            && item.document_id == document_id && item.project_id == access.project_id
            && item.operation_namespace == access.operation_namespace && item.title == title,
        r matches Err(e) ==> e.code == ErrorCode::InvalidProject,
{
    let kind = match BackgroundWorkKind::parse(kind) {
        Ok(k) => k,
        Err(e) => return Err(e),
    };
    let status = match BackgroundWorkStatus::parse(status) {
        Ok(s) => s,
        Err(e) => return Err(e),
    };
    Ok(BackgroundWorkItem {
        kind,
        id,
        document_id,
        status,
        project_id: access.project_id.clone(),
        operation_namespace: access.operation_namespace.clone(),
        title,
    })
}

/// The stored row of a job a stop census names.
#[derive(Debug)]
pub struct StoredJob {
    pub project_id: String,
    pub operation_namespace: String,
    pub document_id: String,
}

pub open spec fn in_session(access: ProjectAccess, project_id: Seq<char>, namespace: Seq<char>) -> bool {
    project_id == access.project_id@ && namespace == access.operation_namespace@
}

/// The error the census entry at `i` meets, given that every earlier entry passed.
pub open spec fn census_item_error(
    access: ProjectAccess,
    items: Seq<BackgroundWorkItem>,
    i: int,
    row: Result<Option<StoredJob>, CoreError>,
) -> Option<ErrorCode> {
    let item = items[i];
    if !in_session(access, item.project_id@, item.operation_namespace@) {
        Some(ErrorCode::WrongProjectSession)
    } else if !item.status.spec_active() {
        Some(ErrorCode::InvalidRequest)
    } else if exists|j: int| 0 <= j < i && (#[trigger] items[j]).id@ == item.id@ {
        Some(ErrorCode::InvalidRequest)
    } else {
        match row {
            Err(e) => Some(e.code),
            Ok(None) => Some(ErrorCode::BackgroundWorkNotFound),
            Ok(Some(job)) => if !in_session(access, job.project_id@, job.operation_namespace@)
                || job.document_id@ != item.document_id@ {
                Some(ErrorCode::BackgroundWorkMismatch)
            } else {
                None
            },
        }
    }
}

/// A stop census is the session's own: no earlier errors, every entry an
/// active job of this namespace named once, and each still stored for the
/// same document. A job that turned terminal since the census still passes.
/// `rows[i]` is the read of the stored row of `expected.items[i]`.
#[verifier::loop_isolation(false)]
pub fn validate_expected_background_work(
    access: &ProjectAccess,
    expected: &BackgroundWork,
    rows: &Vec<Result<Option<StoredJob>, CoreError>>,
) -> (r: Result<(), CoreError>)
    requires
        rows@.len() == expected.items@.len(),
    ensures
        expected.errors@.len() > 0 ==> fails_with(r, ErrorCode::InvalidRequest),
        expected.errors@.len() == 0 ==> (r is Ok <==> forall|i: int| 0 <= i < expected.items@.len()
            ==> census_item_error(*access, expected.items@, i, #[trigger] rows@[i]) is None),
        expected.errors@.len() == 0 && r is Err ==> exists|i: int| 0 <= i < expected.items@.len()
            && (forall|j: int| 0 <= j < i ==> census_item_error(*access, expected.items@, j, #[trigger] rows@[j]) is None)
            && census_item_error(*access, expected.items@, i, rows@[i]) == Some(r->Err_0.code),
{
    if expected.errors.len() > 0 {
        return Err(CoreError::new(ErrorCode::InvalidRequest, "A background-work stop census cannot contain prior errors."));
    }
    let items = &expected.items;
    let n = items.len();
    let mut i: usize = 0;
    while i < n
        invariant
            n == items@.len(),
            rows@.len() == n,
            items@ == expected.items@,
            0 <= i <= n,
            forall|j: int| 0 <= j < i ==> census_item_error(*access, items@, j, #[trigger] rows@[j]) is None,
        decreases n - i,
    {
        let item = &items[i];
        if !str_eq(item.project_id.as_str(), access.project_id.as_str())
            || !str_eq(item.operation_namespace.as_str(), access.operation_namespace.as_str()) {
            assert(census_item_error(*access, items@, i as int, rows@[i as int]) == Some(ErrorCode::WrongProjectSession));
            return Err(CoreError::new(ErrorCode::WrongProjectSession, "The background-work census belongs to another project namespace."));
        }
        if !(item.status == BackgroundWorkStatus::Queued || item.status == BackgroundWorkStatus::Running
            || item.status == BackgroundWorkStatus::Stopping) {
            assert(census_item_error(*access, items@, i as int, rows@[i as int]) == Some(ErrorCode::InvalidRequest));
            return Err(CoreError::new(ErrorCode::InvalidRequest, "A background-work stop census must contain only active jobs."));
        }
        let mut k: usize = 0;
        while k < i
            invariant
                n == items@.len(),
                0 <= k <= i < n,
                forall|j: int| 0 <= j < k ==> (#[trigger] items@[j]).id@ != items@[i as int].id@,
            decreases i - k,
        {
            if str_eq(items[k].id.as_str(), item.id.as_str()) {
                assert(items@[k as int].id@ == items@[i as int].id@);
                assert(census_item_error(*access, items@, i as int, rows@[i as int]) == Some(ErrorCode::InvalidRequest));
                return Err(CoreError::new(ErrorCode::InvalidRequest, "A background-work stop census contains a duplicate job ID."));
            }
            k += 1;
        }
        assert(!(exists|j: int| 0 <= j < i && (#[trigger] items@[j]).id@ == items@[i as int].id@));
        match &rows[i] {
            Err(e) => {
                assert(census_item_error(*access, items@, i as int, rows@[i as int]) == Some(e.code));
                return Err(e.clone());
            },
            Ok(None) => return Err(CoreError::new(ErrorCode::BackgroundWorkNotFound, "The captured background job is no longer available.")),
            Ok(Some(job)) => {
                if !str_eq(job.project_id.as_str(), access.project_id.as_str())
                    || !str_eq(job.operation_namespace.as_str(), access.operation_namespace.as_str())
                    || !str_eq(job.document_id.as_str(), item.document_id.as_str()) {
                    assert(census_item_error(*access, items@, i as int, rows@[i as int]) == Some(ErrorCode::BackgroundWorkMismatch));
                    return Err(CoreError::new(ErrorCode::BackgroundWorkMismatch, "The captured background job does not match the current project namespace or document."));
                }
            },
        }
        assert(census_item_error(*access, items@, i as int, rows@[i as int]) is None);
        i += 1;
    }
    Ok(())
}


/// The census entry with the status its stop request left it in.
pub open spec fn with_status(item: BackgroundWorkItem, status: BackgroundWorkStatus) -> BackgroundWorkItem {
    BackgroundWorkItem { status: status, ..item }
}

/// The jobs whose stop succeeded, in census order, each with its new status.
pub open spec fn stopped_items(records: Seq<BackgroundWorkItem>, outcomes: Seq<Result<BackgroundWorkStatus, CoreError>>) -> Seq<BackgroundWorkItem>
    decreases records.len(),
{
    if records.len() == 0 || outcomes.len() == 0 {
        Seq::empty()
    } else {
        let earlier = stopped_items(records.drop_last(), outcomes.drop_last());
        match outcomes.last() {
            Ok(status) => earlier.push(with_status(records.last(), status)),
            Err(_) => earlier,
        }
    }
}

/// The jobs whose stop failed, in census order, each with its failure.
pub open spec fn failed_items(records: Seq<BackgroundWorkItem>, outcomes: Seq<Result<BackgroundWorkStatus, CoreError>>) -> Seq<BackgroundWorkError>
    decreases records.len(),
{
    if records.len() == 0 || outcomes.len() == 0 {
        Seq::empty()
    } else {
        let earlier = failed_items(records.drop_last(), outcomes.drop_last());
        match outcomes.last() {
            Ok(_) => earlier,
            Err(e) => earlier.push(BackgroundWorkError { item: records.last(), error: e }),
        }
    }
}

/// Reports a stop or interrupt pass over a validated census: `outcomes[i]`
/// is what stopping `expected.items[i]` returned. A failed stop does not
/// end the pass; it is reported beside the stopped jobs.
pub fn collect_stop_outcomes(
    expected: &BackgroundWork,
    outcomes: Vec<Result<BackgroundWorkStatus, CoreError>>,
) -> (r: BackgroundWork)
    requires
        outcomes@.len() == expected.items@.len(),
    ensures
        r.items@ == stopped_items(expected.items@, outcomes@),
        r.errors@ == failed_items(expected.items@, outcomes@),
{
    let records = &expected.items;
    let n = records.len();
    let mut items: Vec<BackgroundWorkItem> = Vec::new();
    let mut errors: Vec<BackgroundWorkError> = Vec::new();
    let mut i: usize = 0;
    assert(records@.take(0) =~= Seq::<BackgroundWorkItem>::empty());
    while i < n
        invariant
            n == records@.len(),
            outcomes@.len() == n,
            0 <= i <= n,
            items@ == stopped_items(records@.take(i as int), outcomes@.take(i as int)),
            errors@ == failed_items(records@.take(i as int), outcomes@.take(i as int)),
        decreases n - i,
    {
        assert(records@.take(i + 1).drop_last() =~= records@.take(i as int));
        assert(outcomes@.take(i + 1).drop_last() =~= outcomes@.take(i as int));
        let record = &records[i];
        match &outcomes[i] {
            Ok(status) => {
                let mut item = record.clone();
                item.status = *status;
                items.push(item);
            },
            Err(e) => {
                errors.push(BackgroundWorkError { item: record.clone(), error: e.clone() });
            },
        }
        i += 1;
    }
    assert(records@.take(n as int) =~= records@);
    assert(outcomes@.take(n as int) =~= outcomes@);
    BackgroundWork { items, errors }
}


// ---------------------------------------------------------------------- laws

/// A stop pass accounts for every job of the census: each one is reported
/// either as stopped or as failed, never both and never neither.
pub proof fn law_stop_pass_reports_every_job(
    records: Seq<BackgroundWorkItem>,
    outcomes: Seq<Result<BackgroundWorkStatus, CoreError>>,
)
    requires
        records.len() == outcomes.len(),
    ensures
        stopped_items(records, outcomes).len() + failed_items(records, outcomes).len() == records.len(),
    decreases records.len(),
{
    if records.len() > 0 {
        law_stop_pass_reports_every_job(records.drop_last(), outcomes.drop_last());
    }
}

/// After a successful stop request a queued discussion is stopped, and a
/// running or already stopping one is stopping.
pub proof fn law_stop_request_statuses(access: ProjectAccess, run: DiscussionRun, c: RunChange)
    ensures
        run.status == DiscussionRunStatus::Queued && sealed(c, run, DiscussionRunStatus::Stopped, "author_stopped"@,
            stop_event_id(run.id@), stop_settled_text()) ==> run_work_status(c.run.status) == BackgroundWorkStatus::Stopped,
        run.status == DiscussionRunStatus::Running && stopping(c, run)
            ==> run_work_status(c.run.status) == BackgroundWorkStatus::Stopping,
        run.status == DiscussionRunStatus::Stopping ==> run_work_status(run.status) == BackgroundWorkStatus::Stopping,
{
}

} // verus!
