//! The domain model shared by the Host, the Runtime and the AI endpoint.
use vstd::prelude::*;

use crate::ids::{uuid_text, uuid_to_text};

verus! {

/// A fresh random (version 4) UUID; the wrapped call is `uuid::Uuid::new_v4`.
/// Nothing is stated of the value: it is random.
#[verifier::external_body]
fn fresh_uuid() -> u128 {
    uuid::Uuid::new_v4().as_u128()
}

/// What `uuid::Uuid::parse_str` answers for a text.
pub uninterp spec fn uuid_parse(text: Seq<char>) -> Option<u128>;

/// Parses a UUID text; the wrapped call is `uuid::Uuid::parse_str`. Its result is
/// named by `uuid_parse`; of it we state only that the hyphenated lowercase text
/// of a UUID, which `parse_str` accepts, gives that UUID back.
#[verifier::external_body]
fn parse_uuid(text: &str) -> (r: Option<u128>)
    ensures
        r == uuid_parse(text@),
        forall|v: u128| text@ == uuid_text(v) ==> r == Some(v),
{
    uuid::Uuid::parse_str(text).ok().map(|u| u.as_u128())
}

/// Identifier of a Project.
#[derive(Clone, Copy, PartialEq, Eq, Structural, Hash, Debug)]
pub struct ProjectId(pub u128);

/// Identifier of a Notebook.
#[derive(Clone, Copy, PartialEq, Eq, Structural, Hash, Debug)]
pub struct NotebookId(pub u128);

/// Identifier of an Execution Session.
#[derive(Clone, Copy, PartialEq, Eq, Structural, Hash, Debug)]
pub struct SessionId(pub u128);

/// Identifier of an operation (one cell execution).
#[derive(Clone, Copy, PartialEq, Eq, Structural, Hash, Debug)]
pub struct OperationId(pub u128);

/// Identifier of a failure record.
#[derive(Clone, Copy, PartialEq, Eq, Structural, Hash, Debug)]
pub struct FailureId(pub u128);

impl ProjectId {
    /// A new random identifier.
    pub fn new() -> Self {
        ProjectId(fresh_uuid())
    }

    /// The wire text of the identifier.
    pub fn to_string(&self) -> (r: String)
        ensures
            r@ == uuid_text(self.0),
    {
        uuid_to_text(self.0)
    }

    /// Reads an identifier from its text.
    pub fn parse(text: &str) -> (r: Option<ProjectId>)
        ensures
            r == (match uuid_parse(text@) {
                Some(v) => Some(ProjectId(v)),
                None => None,
            }),
            forall|v: u128| text@ == uuid_text(v) ==> r == Some(ProjectId(v)),
    {
        match parse_uuid(text) {
            Some(v) => Some(ProjectId(v)),
            None => None,
        }
    }
}

impl NotebookId {
    /// A new random identifier.
    pub fn new() -> Self {
        NotebookId(fresh_uuid())
    }

    /// The wire text of the identifier.
    pub fn to_string(&self) -> (r: String)
        ensures
            r@ == uuid_text(self.0),
    {
        uuid_to_text(self.0)
    }
}

impl SessionId {
    /// A new random identifier.
    pub fn new() -> Self {
        SessionId(fresh_uuid())
    }

    /// The wire text of the identifier.
    pub fn to_string(&self) -> (r: String)
        ensures
            r@ == uuid_text(self.0),
    {
        uuid_to_text(self.0)
    }
}

impl OperationId {
    /// A new random identifier.
    pub fn new() -> Self {
        OperationId(fresh_uuid())
    }

    /// The wire text of the identifier.
    pub fn to_string(&self) -> (r: String)
        ensures
            r@ == uuid_text(self.0),
    {
        uuid_to_text(self.0)
    }

    /// Reads an identifier from its text.
    pub fn parse(text: &str) -> (r: Option<OperationId>)
        ensures
            r == (match uuid_parse(text@) {
                Some(v) => Some(OperationId(v)),
                None => None,
            }),
            forall|v: u128| text@ == uuid_text(v) ==> r == Some(OperationId(v)),
    {
        match parse_uuid(text) {
            Some(v) => Some(OperationId(v)),
            None => None,
        }
    }
}

impl FailureId {
    /// A new random identifier.
    pub fn new() -> Self {
        FailureId(fresh_uuid())
    }
}

/// A point in time in UTC: seconds since the Unix epoch and nanoseconds within the second.
#[derive(Clone, Copy, PartialEq, Eq, Structural, Debug)]
pub struct UtcTimestamp {
    pub unix_seconds: i64,
    pub nanos: u32,
}

#[derive(Clone, Copy, PartialEq, Eq, Structural, Debug)]
pub enum DesiredRuntimeState {
    Running,
    Stopped,
}

#[derive(Clone, Copy, PartialEq, Eq, Structural, Debug)]
pub enum RuntimeState {
    Uninstalled,
    Stopped,
    Starting,
    Healthy,
    Degraded,
    Updating,
    Repairing,
    Stopping,
    Error,
}

#[derive(Clone, Copy, PartialEq, Eq, Structural, Debug)]
pub enum EnvironmentState {
    Absent,
    Syncing,
    Ready,
    Broken,
}

#[derive(Clone, Copy, PartialEq, Eq, Structural, Debug)]
pub enum SessionState {
    Starting,
    Idle,
    Executing,
    Interrupting,
    StaleEnvironment,
    Stopping,
    Stopped,
    Crashed,
    Error,
}

#[derive(Clone, Copy, PartialEq, Eq, Structural, Debug)]
pub enum OperationStatus {
    Queued,
    Running,
    Succeeded,
    Failed,
    Interrupted,
    Cancelled,
}

/// Who asked for a cell execution.
#[derive(Clone, Copy, PartialEq, Eq, Structural, Debug)]
pub enum ExecutionOrigin {
    Human,
    Mcp,
}

/// A Python Project managed through uv.
#[derive(Debug)]
pub struct Project {
    pub project_id: ProjectId,
    pub name: String,
    pub root_path: String,
    pub environment_generation: u64,
}

impl Clone for Project {
    fn clone(&self) -> (r: Self)
        ensures
            r == *self,
    {
        Project {
            project_id: self.project_id,
            name: self.name.clone(),
            root_path: self.root_path.clone(),
            environment_generation: self.environment_generation,
        }
    }
}

/// A reference to a stored `.ipynb` document of a Project.
#[derive(Debug)]
pub struct NotebookDocumentRef {
    pub notebook_id: NotebookId,
    pub project_id: ProjectId,
    pub relative_path: String,
    pub revision: u64,
}

impl Clone for NotebookDocumentRef {
    fn clone(&self) -> (r: Self)
        ensures
            r == *self,
    {
        NotebookDocumentRef {
            notebook_id: self.notebook_id,
            project_id: self.project_id,
            relative_path: self.relative_path.clone(),
            revision: self.revision,
        }
    }
}

/// A snapshot of a live Execution Session.
#[derive(Clone, Copy, PartialEq, Eq, Structural, Debug)]
pub struct ExecutionSession {
    pub session_id: SessionId,
    pub project_id: ProjectId,
    pub notebook_id: NotebookId,
    pub state: SessionState,
    pub worker_generation: u64,
    pub environment_generation: u64,
    pub started_at: UtcTimestamp,
    pub current_operation_id: Option<OperationId>,
    pub queue_depth: usize,
}

/// A structured error for clients: a stable code and what to do about it.
#[derive(Debug)]
pub struct DomainError {
    pub code: String,
    pub component: String,
    pub summary: String,
    pub action: String,
    pub detail: Option<String>,
}

impl Clone for DomainError {
    fn clone(&self) -> (r: Self)
        ensures
            r == *self,
    {
        DomainError {
            code: self.code.clone(),
            component: self.component.clone(),
            summary: self.summary.clone(),
            action: self.action.clone(),
            detail: match &self.detail {
                Some(d) => Some(d.clone()),
                None => None,
            },
        }
    }
}

/// What a recent Session evidence entry records.
#[derive(Clone, Copy, PartialEq, Eq, Structural, Debug)]
pub enum SessionEvidenceKind {
    StateChanged,
    OperationFinished,
    WorkerExecutionStarted,
    WorkerExecutionFinished,
    WorkerWarning,
    WorkerError,
    WorkerResponse,
}

/// One entry of a Session's recent evidence tail.
#[derive(Debug)]
pub struct SessionEvidenceEvent {
    pub timestamp: UtcTimestamp,
    pub kind: SessionEvidenceKind,
    pub operation_id: Option<OperationId>,
    pub detail: Option<String>,
}

/// What made the Runtime record a failure.
#[derive(Clone, Copy, PartialEq, Eq, Structural, Debug)]
pub enum FailureTrigger {
    ProcessExit,
    WorkerDisconnected,
    HeartbeatTimeout,
    WorkerProtocol,
    RuntimeIo,
    RuntimeControl,
    Startup,
}

/// The suspected cause of a worker failure.
#[derive(Clone, Copy, PartialEq, Eq, Structural, Debug)]
pub enum FailureClassification {
    Unknown,
    ProcessSignal,
    OomSuspected,
}

/// Memory figures of one process, in bytes, as far as they were readable.
#[derive(Clone, Copy, PartialEq, Eq, Structural, Debug)]
pub struct ProcessMemorySnapshot {
    pub rss_bytes: Option<u64>,
    pub virtual_bytes: Option<u64>,
    pub swap_bytes: Option<u64>,
}

/// Memory figures of the Linux system, in bytes, as far as they were readable.
#[derive(Clone, Copy, PartialEq, Eq, Structural, Debug)]
pub struct SystemMemorySnapshot {
    pub total_bytes: Option<u64>,
    pub available_bytes: Option<u64>,
    pub swap_total_bytes: Option<u64>,
    pub swap_free_bytes: Option<u64>,
}

/// The cgroup v2 OOM counters of a worker, with the deltas against the
/// counters read when its Session started (when that baseline is comparable).
#[derive(Debug)]
pub struct LinuxOomEvidence {
    pub cgroup_path: String,
    pub oom_count: u64,
    pub oom_kill_count: u64,
    pub baseline_oom_count: Option<u64>,
    pub baseline_oom_kill_count: Option<u64>,
    pub oom_delta: Option<u64>,
    pub oom_kill_delta: Option<u64>,
}

impl Clone for LinuxOomEvidence {
    fn clone(&self) -> (r: Self)
        ensures
            r == *self,
    {
        LinuxOomEvidence {
            cgroup_path: self.cgroup_path.clone(),
            oom_count: self.oom_count,
            oom_kill_count: self.oom_kill_count,
            baseline_oom_count: self.baseline_oom_count,
            baseline_oom_kill_count: self.baseline_oom_kill_count,
            oom_delta: self.oom_delta,
            oom_kill_delta: self.oom_kill_delta,
        }
    }
}

/// What the Runtime knew of a Session when one of its workers failed.
#[derive(Debug)]
pub struct RuntimeFailureContext {
    pub trigger: FailureTrigger,
    pub detail: Option<String>,
    pub session_state: SessionState,
    pub recent_session_events: Vec<SessionEvidenceEvent>,
}

/// The record of one worker failure. The confidence of the classification is
/// kept in hundredths (85 stands for 0.85).
#[derive(Debug)]
pub struct FailureRecord {
    pub failure_id: FailureId,
    pub component: String,
    pub session_id: Option<SessionId>,
    pub operation_id: Option<OperationId>,
    pub environment_generation: Option<u64>,
    pub timestamp: UtcTimestamp,
    pub exit_code: Option<i32>,
    pub signal: Option<i32>,
    pub last_stderr: String,
    pub worker_pid: Option<u32>,
    pub worker_memory_snapshot: Option<ProcessMemorySnapshot>,
    pub wsl_memory_snapshot: Option<SystemMemorySnapshot>,
    pub linux_oom_evidence: Option<LinuxOomEvidence>,
    pub runtime_event_context: Option<RuntimeFailureContext>,
    pub classification: FailureClassification,
    pub confidence_percent: u8,
}

} // verus!
