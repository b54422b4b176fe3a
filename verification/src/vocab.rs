//! The run vocabulary: owners, statuses, provider outcomes and the durable
//! discussion-run record that every lifecycle decision reads and produces.
use vstd::prelude::*;
use vstd::utf8::encode_utf8;
use crate::error::{CoreError, ErrorCode};

verus! {

/// Byte-exact string equality.
pub fn str_eq(a: &str, b: &str) -> (r: bool)
    ensures
        r == (a@ == b@),
{
    let x = a.as_bytes();
    let y = b.as_bytes();
    proof {
        vstd::utf8::encode_utf8_decode_utf8(a@);
        vstd::utf8::encode_utf8_decode_utf8(b@);
    }
    if x.len() != y.len() {
        return false;
    }
    let n = x.len();
    let mut i: usize = 0;
    while i < n
        invariant
            n == x@.len(),
            n == y@.len(),
            x@ == encode_utf8(a@),
            y@ == encode_utf8(b@),
            0 <= i <= n,
            forall|j: int| 0 <= j < i ==> x@[j] == y@[j],
        decreases n - i,
    {
        if x[i] != y[i] {
            return false;
        }
        i += 1;
    }
    assert(x@ =~= y@);
    true
}

/// Equality of two optional strings by content.
pub fn opt_str_eq(a: &Option<String>, b: &Option<String>) -> (r: bool)
    ensures
        r == (opt_view(*a) == opt_view(*b)),
{
    match (a, b) {
        (Some(x), Some(y)) => str_eq(x.as_str(), y.as_str()),
        (None, None) => true,
        _ => false,
    }
}

pub open spec fn opt_view(s: Option<String>) -> Option<Seq<char>> {
    match s {
        Some(x) => Some(x@),
        None => None,
    }
}

/// The project identity an actor currently serves.
#[derive(Debug)]
pub struct ProjectInfo {
    pub project_id: String,
    pub operation_namespace: String,
}

/// A caller's claim to act in a project session.
#[derive(Debug)]
pub struct ProjectAccess {
    pub project_id: String,
    pub operation_namespace: String,
    pub session: String,
    pub writer_lease: String,
}

/// The project, namespace and run that a runtime message speaks for.
#[derive(Debug)]
pub struct RunOwner {
    pub project_id: String,
    pub operation_namespace: String,
    pub run_id: String,
}

impl RunOwner {
    pub open spec fn same(self, other: RunOwner) -> bool {
        &&& self.project_id@ == other.project_id@
        &&& self.operation_namespace@ == other.operation_namespace@
        &&& self.run_id@ == other.run_id@
    }
}

/// An exact document head: identity, working version and body fingerprint.
#[derive(Debug)]
pub struct Head {
    pub document_id: String,
    pub version: String,
    pub body_hash: String,
}

#[derive(Debug, Clone, Copy, PartialEq, Eq, Structural)]
pub enum DiscussionRunStatus {
    Queued,
    Running,
    Stopping,
    Completed,
    Stopped,
    Failed,
    Interrupted,
}

impl DiscussionRunStatus {
    /// Queued, running and stopping runs may still change.
    pub open spec fn spec_active(self) -> bool {
        self is Queued || self is Running || self is Stopping
    }

    pub open spec fn spec_terminal(self) -> bool {
        !self.spec_active()
    }

    pub open spec fn spec_name(self) -> Seq<char> {
        match self {
            DiscussionRunStatus::Queued => "queued"@,
            DiscussionRunStatus::Running => "running"@,
            DiscussionRunStatus::Stopping => "stopping"@,
            DiscussionRunStatus::Completed => "completed"@,
            DiscussionRunStatus::Stopped => "stopped"@,
            DiscussionRunStatus::Failed => "failed"@,
            DiscussionRunStatus::Interrupted => "interrupted"@,
        }
    }

    pub fn active(&self) -> (r: bool)
        ensures
            r == self.spec_active(),
    {
        matches!(self, DiscussionRunStatus::Queued | DiscussionRunStatus::Running | DiscussionRunStatus::Stopping)
    }

    pub fn terminal(&self) -> (r: bool)
        ensures
            r == self.spec_terminal(),
    {
        !self.active()
    }

    pub fn as_str(&self) -> (r: &'static str)
        ensures
            r@ == self.spec_name(),
    {
        match self {
            DiscussionRunStatus::Queued => "queued",
            DiscussionRunStatus::Running => "running",
            DiscussionRunStatus::Stopping => "stopping",
            DiscussionRunStatus::Completed => "completed",
            DiscussionRunStatus::Stopped => "stopped",
            DiscussionRunStatus::Failed => "failed",
            DiscussionRunStatus::Interrupted => "interrupted",
        }
    }

    pub fn parse(value: &str) -> (r: Result<DiscussionRunStatus, CoreError>)
        ensures
            r matches Ok(s) ==> s.spec_name() == value@,
            r is Err ==> forall|s: DiscussionRunStatus| s.spec_name() != value@,
            r matches Err(e) ==> e.code == ErrorCode::InvalidProject,
    {
        let all = [
            DiscussionRunStatus::Queued,
            DiscussionRunStatus::Running,
            DiscussionRunStatus::Stopping,
            DiscussionRunStatus::Completed,
            DiscussionRunStatus::Stopped,
            DiscussionRunStatus::Failed,
            DiscussionRunStatus::Interrupted,
        ];
        let mut i: usize = 0;
        while i < 7
            invariant
                0 <= i <= 7,
                all@ == seq![
                    DiscussionRunStatus::Queued,
                    DiscussionRunStatus::Running,
                    DiscussionRunStatus::Stopping,
                    DiscussionRunStatus::Completed,
                    DiscussionRunStatus::Stopped,
                    DiscussionRunStatus::Failed,
                    DiscussionRunStatus::Interrupted,
                ],
                forall|j: int| 0 <= j < i ==> (#[trigger] all@[j]).spec_name() != value@,
            decreases 7 - i,
        {
            if str_eq(all[i].as_str(), value) {
                return Ok(all[i]);
            }
            i += 1;
        }
        assert forall|s: DiscussionRunStatus| s.spec_name() != value@ by {
            match s {
                DiscussionRunStatus::Queued => assert(all@[0] == s),
                DiscussionRunStatus::Running => assert(all@[1] == s),
                DiscussionRunStatus::Stopping => assert(all@[2] == s),
                DiscussionRunStatus::Completed => assert(all@[3] == s),
                DiscussionRunStatus::Stopped => assert(all@[4] == s),
                DiscussionRunStatus::Failed => assert(all@[5] == s),
                DiscussionRunStatus::Interrupted => assert(all@[6] == s),
            }
        }
        Err(CoreError::new(ErrorCode::InvalidProject, "The saved discussion run has an unknown status."))
    }
}

/// How a provider call ended, as the provider worker reports it.
#[derive(Debug, Clone, Copy, PartialEq, Eq, Structural)]
pub enum ProviderOutcomeStatus {
    Completed,
    Stopped,
    TimedOut,
    OutputLimit,
    Failed,
}

impl ProviderOutcomeStatus {
    pub open spec fn spec_name(self) -> Seq<char> {
        match self {
            ProviderOutcomeStatus::Completed => "completed"@,
            ProviderOutcomeStatus::Stopped => "stopped"@,
            ProviderOutcomeStatus::TimedOut => "timed_out"@,
            ProviderOutcomeStatus::OutputLimit => "output_limit"@,
            ProviderOutcomeStatus::Failed => "failed"@,
        }
    }

    pub fn as_str(&self) -> (r: &'static str)
        ensures
            r@ == self.spec_name(),
    {
        match self {
            ProviderOutcomeStatus::Completed => "completed",
            ProviderOutcomeStatus::Stopped => "stopped",
            ProviderOutcomeStatus::TimedOut => "timed_out",
            ProviderOutcomeStatus::OutputLimit => "output_limit",
            ProviderOutcomeStatus::Failed => "failed",
        }
    }
}

impl ProviderOutcomeStatus {
    /// Reads a stored outcome back.
    pub fn parse(value: &str) -> (r: Result<ProviderOutcomeStatus, CoreError>)
        ensures
            r matches Ok(s) ==> s.spec_name() == value@,
            r is Err ==> forall|s: ProviderOutcomeStatus| s.spec_name() != value@,
            r matches Err(e) ==> e.code == ErrorCode::InvalidProject,
    {
        let all = [
            ProviderOutcomeStatus::Completed,
            ProviderOutcomeStatus::Stopped,
            ProviderOutcomeStatus::TimedOut,
            ProviderOutcomeStatus::OutputLimit,
            ProviderOutcomeStatus::Failed,
        ];
        let mut i: usize = 0;
        while i < 5
            invariant
                0 <= i <= 5,
                all@ == seq![
                    ProviderOutcomeStatus::Completed,
                    ProviderOutcomeStatus::Stopped,
                    ProviderOutcomeStatus::TimedOut,
                    ProviderOutcomeStatus::OutputLimit,
                    ProviderOutcomeStatus::Failed,
                ],
                forall|j: int| 0 <= j < i ==> (#[trigger] all@[j]).spec_name() != value@,
            decreases 5 - i,
        {
            if str_eq(all[i].as_str(), value) {
                return Ok(all[i]);
            }
            i += 1;
        }
        assert forall|s: ProviderOutcomeStatus| s.spec_name() != value@ by {
            match s {
                ProviderOutcomeStatus::Completed => assert(all@[0] == s),
                ProviderOutcomeStatus::Stopped => assert(all@[1] == s),
                ProviderOutcomeStatus::TimedOut => assert(all@[2] == s),
                ProviderOutcomeStatus::OutputLimit => assert(all@[3] == s),
                ProviderOutcomeStatus::Failed => assert(all@[4] == s),
            }
        }
        Err(CoreError::new(ErrorCode::InvalidProject, "The saved provider outcome is unknown."))
    }
}

/// Whether the provider worker released its external resources.
#[derive(Debug, Clone, Copy, PartialEq, Eq, Structural)]
pub enum ProviderCleanup {
    Settled,
    Unresolved,
}

impl ProviderCleanup {
    pub open spec fn spec_name(self) -> Seq<char> {
        match self {
            ProviderCleanup::Settled => "settled"@,
            ProviderCleanup::Unresolved => "unresolved"@,
        }
    }

    pub fn as_str(&self) -> (r: &'static str)
        ensures
            r@ == self.spec_name(),
    {
        match self {
            ProviderCleanup::Settled => "settled",
            ProviderCleanup::Unresolved => "unresolved",
        }
    }
}

impl ProviderCleanup {
    /// Reads a stored cleanup state back.
    pub fn parse(value: &str) -> (r: Result<ProviderCleanup, CoreError>)
        ensures
            r matches Ok(s) ==> s.spec_name() == value@,
            r is Err ==> forall|s: ProviderCleanup| s.spec_name() != value@,
            r matches Err(e) ==> e.code == ErrorCode::InvalidProject,
    {
        proof {
            reveal_strlit("settled");
            reveal_strlit("unresolved");
        }
        if str_eq(value, "settled") {
            Ok(ProviderCleanup::Settled)
        } else if str_eq(value, "unresolved") {
            Ok(ProviderCleanup::Unresolved)
        } else {
            assert forall|s: ProviderCleanup| s.spec_name() != value@ by {
                match s {
                    ProviderCleanup::Settled => {},
                    ProviderCleanup::Unresolved => {},
                }
            }
            Err(CoreError::new(ErrorCode::InvalidProject, "The saved provider cleanup state is unknown."))
        }
    }
}

/// The dispatcher's progress on a run, separate from its durable status.
#[derive(Debug, Clone, Copy, PartialEq, Eq, Structural)]
pub enum DispatchState {
    Pending,
    Claimed,
    Delivered,
}

impl DispatchState {
    pub open spec fn spec_name(self) -> Seq<char> {
        match self {
            DispatchState::Pending => "pending"@,
            DispatchState::Claimed => "claimed"@,
            DispatchState::Delivered => "delivered"@,
        }
    }

    pub fn as_str(&self) -> (r: &'static str)
        ensures
            r@ == self.spec_name(),
    {
        match self {
            DispatchState::Pending => "pending",
            DispatchState::Claimed => "claimed",
            DispatchState::Delivered => "delivered",
        }
    }

    /// Reads a stored dispatch state back.
    pub fn parse(value: &str) -> (r: Result<DispatchState, CoreError>)
        ensures
            r matches Ok(s) ==> s.spec_name() == value@,
            r is Err ==> forall|s: DispatchState| s.spec_name() != value@,
            r matches Err(e) ==> e.code == ErrorCode::InvalidProject,
    {
        proof {
            reveal_strlit("pending");
            reveal_strlit("claimed");
            reveal_strlit("delivered");
        }
        if str_eq(value, "pending") {
            Ok(DispatchState::Pending)
        } else if str_eq(value, "claimed") {
            Ok(DispatchState::Claimed)
        } else if str_eq(value, "delivered") {
            Ok(DispatchState::Delivered)
        } else {
            assert forall|s: DispatchState| s.spec_name() != value@ by {
                match s {
                    DispatchState::Pending => {},
                    DispatchState::Claimed => {},
                    DispatchState::Delivered => {},
                }
            }
            Err(CoreError::new(ErrorCode::InvalidProject, "The saved discussion run has an unknown dispatch state."))
        }
    }
}

#[derive(Debug, Clone, Copy, PartialEq, Eq, Structural)]
pub enum DiscussionMessageRole {
    User,
    Assistant,
}

/// The transport a provider binding selects.
#[derive(Debug, Clone, Copy, PartialEq, Eq, Structural)]
pub enum ProviderTransport {
    /// A local Codex process fed on stdin.
    Exec,
    /// An OpenAI-compatible HTTP endpoint.
    Http,
    /// A Codex app-server session.
    AppServer,
}

/// What the run logic reads of an immutable provider binding.
#[derive(Debug)]
pub struct ProviderBinding {
    /// The binding's canonical serialized form; two bindings are the same
    /// binding exactly when these are equal.
    pub canonical_json: String,
    pub transport: ProviderTransport,
    /// The bounded profile whose results retain the reported model identity.
    pub model_reporting: bool,
    pub model_id: String,
    /// The binding's own validation verdict; `None` when it is valid.
    pub validation_error: Option<String>,
    /// The application output cap this binding allows.
    pub output_limit: usize,
    /// The application input cap this binding allows.
    pub input_limit: usize,
}

impl ProviderBinding {
    pub open spec fn same(self, other: ProviderBinding) -> bool {
        self.canonical_json@ == other.canonical_json@
    }

    pub fn same_binding(&self, other: &ProviderBinding) -> (r: bool)
        ensures
            r == self.same(*other),
    {
        str_eq(self.canonical_json.as_str(), other.canonical_json.as_str())
    }
}

pub open spec fn same_opt_binding(a: Option<ProviderBinding>, b: Option<ProviderBinding>) -> bool {
    match (a, b) {
        (Some(x), Some(y)) => x.same(y),
        (None, None) => true,
        _ => false,
    }
}

pub fn same_opt_binding_exec(a: &Option<ProviderBinding>, b: &Option<ProviderBinding>) -> (r: bool)
    ensures
        r == same_opt_binding(*a, *b),
{
    match (a, b) {
        (Some(x), Some(y)) => x.same_binding(y),
        (None, None) => true,
        _ => false,
    }
}

/// A bounded story-lookup opt-in.
#[derive(Debug)]
pub struct LookupAllowance {
    pub max_additional_invocations: u8,
    pub total_input_bytes: String,
    pub total_output_bytes: String,
    /// The allowance's own validation verdict; `None` when it is valid.
    pub validation_error: Option<String>,
}

impl Clone for LookupAllowance {
    fn clone(&self) -> (r: Self)
        ensures
            r == *self,
    {
        LookupAllowance {
            max_additional_invocations: self.max_additional_invocations,
            total_input_bytes: self.total_input_bytes.clone(),
            total_output_bytes: self.total_output_bytes.clone(),
            validation_error: clone_opt_string(&self.validation_error),
        }
    }
}

pub fn clone_opt_allowance(o: &Option<LookupAllowance>) -> (r: Option<LookupAllowance>)
    ensures
        r == *o,
{
    match o {
        Some(a) => Some(a.clone()),
        None => None,
    }
}

/// The durable state of one discussion run, as the lifecycle reads it.
#[derive(Debug)]
pub struct DiscussionRun {
    pub id: String,
    pub thread_id: String,
    pub owner: RunOwner,
    pub packet_id: String,
    /// The immutable binding of the run's packet; `None` for the local mock.
    pub provider_binding: Option<ProviderBinding>,
    /// The bounded story-lookup allowance the discussion opted into, if any.
    pub lookup: Option<LookupAllowance>,
    pub status: DiscussionRunStatus,
    pub dispatch_state: DispatchState,
    /// The number of output events accepted so far.
    pub sequence: u64,
    pub output_text: String,
    pub stop_reason: Option<String>,
}

/// An output event already recorded under an event ID.
#[derive(Debug)]
pub struct ExistingEvent {
    pub kind: EventKind,
    pub chunk: String,
    pub sequence: u64,
}

#[derive(Debug, Clone, Copy, PartialEq, Eq, Structural)]
pub enum EventKind {
    Chunk,
    Terminal,
}

/// One immutable output event to append.
#[derive(Debug)]
pub struct OutputEvent {
    pub sequence: u64,
    pub event_id: String,
    pub kind: EventKind,
    pub chunk: String,
}

/// One immutable assistant message to append to the run's thread.
#[derive(Debug)]
pub struct AssistantMessage {
    pub content: String,
    /// The packet whose context produced the message, when retained.
    pub packet_id: Option<String>,
}

/// The writes one lifecycle step commits together: the run's next state,
/// and the event and message rows that accompany it.
#[derive(Debug)]
pub struct RunChange {
    pub run: DiscussionRun,
    pub event: Option<OutputEvent>,
    pub message: Option<AssistantMessage>,
}

/// A lifecycle step either replays a recorded outcome or commits a change.
#[derive(Debug)]
pub enum RunStep {
    /// The request was already applied; the run is returned unchanged.
    Replayed(DiscussionRun),
    Changed(RunChange),
}

/// A lifecycle step and whether the run's lookup chain is stopped in the
/// same transaction: its prepared invocations become stopped and its claimed
/// ones unknown (`mark_chain_stopped`), so none can be dispatched after the
/// run is sealed.
#[derive(Debug)]
pub struct ChainStep {
    pub step: RunStep,
    pub stop_chain: bool,
}


impl Clone for ProjectInfo {
    fn clone(&self) -> (r: Self)
        ensures
            r == *self,
    {
        ProjectInfo { project_id: self.project_id.clone(), operation_namespace: self.operation_namespace.clone() }
    }
}

impl Clone for ProjectAccess {
    fn clone(&self) -> (r: Self)
        ensures
            r == *self,
    {
        ProjectAccess { project_id: self.project_id.clone(), operation_namespace: self.operation_namespace.clone(), session: self.session.clone(), writer_lease: self.writer_lease.clone() }
    }
}

impl Clone for RunOwner {
    fn clone(&self) -> (r: Self)
        ensures
            r == *self,
    {
        RunOwner { project_id: self.project_id.clone(), operation_namespace: self.operation_namespace.clone(), run_id: self.run_id.clone() }
    }
}

impl Clone for Head {
    fn clone(&self) -> (r: Self)
        ensures
            r == *self,
    {
        Head { document_id: self.document_id.clone(), version: self.version.clone(), body_hash: self.body_hash.clone() }
    }
}

impl Clone for ProviderBinding {
    fn clone(&self) -> (r: Self)
        ensures
            r == *self,
    {
        ProviderBinding { canonical_json: self.canonical_json.clone(), transport: self.transport, model_reporting: self.model_reporting, model_id: self.model_id.clone(), validation_error: clone_opt_string(&self.validation_error), output_limit: self.output_limit, input_limit: self.input_limit }
    }
}

impl Clone for DiscussionRun {
    fn clone(&self) -> (r: Self)
        ensures
            r == *self,
    {
        DiscussionRun { id: self.id.clone(), thread_id: self.thread_id.clone(), owner: self.owner.clone(), packet_id: self.packet_id.clone(), provider_binding: clone_opt_binding(&self.provider_binding), lookup: clone_opt_allowance(&self.lookup), status: self.status, dispatch_state: self.dispatch_state, sequence: self.sequence, output_text: self.output_text.clone(), stop_reason: clone_opt_string(&self.stop_reason) }
    }
}

impl Clone for ExistingEvent {
    fn clone(&self) -> (r: Self)
        ensures
            r == *self,
    {
        ExistingEvent { kind: self.kind, chunk: self.chunk.clone(), sequence: self.sequence }
    }
}

impl Clone for OutputEvent {
    fn clone(&self) -> (r: Self)
        ensures
            r == *self,
    {
        OutputEvent { sequence: self.sequence, event_id: self.event_id.clone(), kind: self.kind, chunk: self.chunk.clone() }
    }
}

impl Clone for AssistantMessage {
    fn clone(&self) -> (r: Self)
        ensures
            r == *self,
    {
        AssistantMessage { content: self.content.clone(), packet_id: clone_opt_string(&self.packet_id) }
    }
}

pub fn clone_opt_string(o: &Option<String>) -> (r: Option<String>)
    ensures
        r == *o,
{
    match o {
        Some(s) => Some(s.clone()),
        None => None,
    }
}

pub fn clone_opt_binding(o: &Option<ProviderBinding>) -> (r: Option<ProviderBinding>)
    ensures
        r == *o,
{
    match o {
        Some(b) => Some(b.clone()),
        None => None,
    }
}

} // verus!
