//! Session supervision decisions: configuration, worker readiness and the
//! life states of a Session.
use vstd::prelude::*;

use std::collections::HashMap;

use crate::domain::{NotebookId, ProjectId, SessionId, SessionState, UtcTimestamp};
use crate::ids::uuid_text;
use crate::protocol::worker::{event, WorkerFrame, WORKER_PROTOCOL_V1};
use crate::session::error::SessionError;
use crate::session::handshake::{frame_descriptor, worker_frame_descriptor};
use crate::text::{concat2, concat3, str_eq, string_of, u64_to_decimal, decimal};

verus! {

pub const EXECUTE_QUEUE_CAPACITY: usize = 128;
pub const INSPECTION_QUEUE_CAPACITY: usize = 32;
pub const CONTROL_QUEUE_CAPACITY: usize = 16;
pub const EVENT_QUEUE_CAPACITY: usize = 512;
pub const WORKER_FRAME_QUEUE_CAPACITY: usize = 512;
pub const HEALTH_POLL_INTERVAL_MS: u64 = 250;
pub const RESTART_STOP_GRACE_MS: u64 = 500;

/// How Sessions are started and watched. Durations are in milliseconds.
#[derive(Debug, Clone)]
pub struct SessionSupervisorConfig {
    pub uv_executable: String,
    pub worker_package: String,
    pub socket_dir: String,
    pub startup_timeout_ms: u64,
    pub shutdown_timeout_ms: u64,
    pub heartbeat_timeout_ms: u64,
    pub diagnostic_tail_bytes: usize,
}

impl SessionSupervisorConfig {
    /// The development configuration: `uv` from `PATH`, 15 s startup, 3 s
    /// shutdown, 10 s heartbeat timeout, 64 KiB of stderr kept.
    pub fn development(worker_package: &str, socket_dir: &str) -> (r: Self)
        ensures
            r.uv_executable@ == "uv"@,
            r.worker_package@ == worker_package@,
            r.socket_dir@ == socket_dir@,
            r.startup_timeout_ms == 15000,
            r.shutdown_timeout_ms == 3000,
            r.heartbeat_timeout_ms == 10000,
            r.diagnostic_tail_bytes == 65536,
    {
        SessionSupervisorConfig {
            uv_executable: string_of("uv"),
            worker_package: string_of(worker_package),
            socket_dir: string_of(socket_dir),
            startup_timeout_ms: 15000,
            shutdown_timeout_ms: 3000,
            heartbeat_timeout_ms: 10000,
            diagnostic_tail_bytes: 65536,
        }
    }
}

/// States in which a Session's worker is gone for good.
pub open spec fn terminal_state(state: SessionState) -> bool {
    state == SessionState::Stopped || state == SessionState::Crashed || state == SessionState::Error
}

/// Whether a Session in this state has ended.
pub fn is_terminal_state(state: SessionState) -> (r: bool)
    ensures
        r == terminal_state(state),
{
    match state {
        SessionState::Stopped | SessionState::Crashed | SessionState::Error => true,
        _ => false,
    }
}

/// Whether a Session in this state still has a worker.
pub fn is_live_state(state: SessionState) -> (r: bool)
    ensures
        r == !terminal_state(state),
{
    !is_terminal_state(state)
}

/// The number of execute requests waiting in a queue of this capacity: none
/// once the queue is closed.
pub fn queue_depth(closed: bool, max_capacity: usize, free_capacity: usize) -> (r: usize)
    ensures
        r == (if closed || free_capacity >= max_capacity {
            0
        } else {
            (max_capacity - free_capacity) as usize
        }),
{
    if closed {
        0
    } else if free_capacity >= max_capacity {
        0
    } else {
        max_capacity - free_capacity
    }
}

/// What a worker announced in its `ready` event.
#[derive(Debug, Clone, Copy, PartialEq, Eq)]
pub struct WorkerReady {
    pub pid: u32,
    pub heartbeat_interval_ms: u64,
}

/// The `ready` event that a Session accepts from its new worker.
pub open spec fn ready_of(frame: WorkerFrame, expected: SessionId) -> Option<WorkerReady> {
    match frame {
        WorkerFrame::Event { protocol, session_id, event, payload } => if protocol
            == WORKER_PROTOCOL_V1 && session_id@ == uuid_text(expected.0) && event@
            == event::READY@ {
            match (payload.field_u64("pid"@), payload.field_u64("heartbeat_interval_ms"@)) {
                (Some(pid), Some(ms)) => if pid <= u32::MAX && ms > 0 {
                    Some(WorkerReady { pid: pid as u32, heartbeat_interval_ms: ms })
                } else {
                    None
                },
                _ => None,
            }
        } else {
            None
        },
        _ => None,
    }
}

/// Why a first frame is refused as the `ready` event: what is missing from a
/// `ready` event of this Session, or else the frame's description.
pub open spec fn ready_refusal(frame: WorkerFrame, expected: SessionId) -> Seq<char> {
    match frame {
        WorkerFrame::Event { protocol, session_id, event, payload } => if protocol == WORKER_PROTOCOL_V1
            && session_id@ == uuid_text(expected.0) && event@ == event::READY@ {
            if !(payload.field_u64("pid"@) matches Some(pid) && pid <= u32::MAX) {
                "ready event is missing worker pid"@
            } else {
                "ready event is missing a positive heartbeat interval"@
            }
        } else {
            frame_descriptor(frame)
        },
        _ => frame_descriptor(frame),
    }
}

/// Reads the first frame of a new worker as its `ready` event, as `ready_of`
/// states; anything else is an invalid-ready error, as `ready_refusal` words it.
pub fn validate_ready(frame: &WorkerFrame, expected_session_id: SessionId) -> (r: Result<
    WorkerReady,
    SessionError,
>)
    ensures
        match ready_of(*frame, expected_session_id) {
            Some(ready) => r == Ok::<WorkerReady, SessionError>(ready),
            None => r matches Err(SessionError::InvalidReady(m)) && m@ == ready_refusal(*frame, expected_session_id),
        },
{
    let expected = expected_session_id.to_string();
    match frame {
        WorkerFrame::Event { protocol, session_id, event, payload } => {
            if *protocol == WORKER_PROTOCOL_V1 && str_eq(session_id.as_str(), expected.as_str())
                && str_eq(event.as_str(), event::READY) {
                let pid = match payload.get_u64("pid") {
                    Some(p) => {
                        if p > 4294967295u64 {
                            return Err(
                                SessionError::InvalidReady(
                                    string_of("ready event is missing worker pid"),
                                ),
                            );
                        }
                        p as u32
                    },
                    None => {
                        return Err(
                            SessionError::InvalidReady(
                                string_of("ready event is missing worker pid"),
                            ),
                        );
                    },
                };
                let heartbeat_interval_ms = match payload.get_u64("heartbeat_interval_ms") {
                    Some(ms) => {
                        if ms == 0 {
                            return Err(
                                SessionError::InvalidReady(
                                    string_of(
                                        "ready event is missing a positive heartbeat interval",
                                    ),
                                ),
                            );
                        }
                        ms
                    },
                    None => {
                        return Err(
                            SessionError::InvalidReady(
                                string_of("ready event is missing a positive heartbeat interval"),
                            ),
                        );
                    },
                };
                return Ok(WorkerReady { pid, heartbeat_interval_ms });
            }
        },
        _ => {},
    }
    Err(SessionError::InvalidReady(worker_frame_descriptor(frame)))
}

/// A Session only starts when the pid its worker announced is that of the
/// process at the other end of its socket, where the system reports that one.
pub fn check_ready_peer(ready: WorkerReady, peer_pid: Option<i32>) -> (r: Result<(), SessionError>)
    ensures
        r is Err <==> (peer_pid matches Some(p) && p != ready.pid),
        r matches Err(e) ==> e is InvalidReady,
{
    match peer_pid {
        Some(p) => {
            if p < 0 || p as u32 != ready.pid {
                Err(SessionError::InvalidReady(string_of("ready pid does not match the worker socket peer")))
            } else {
                Ok(())
            }
        },
        None => Ok(()),
    }
}

/// A Session only starts when its heartbeat timeout exceeds the interval at
/// which the worker beats.
pub fn check_heartbeat_budget(heartbeat_timeout_ms: u64, ready: WorkerReady) -> (r: Result<
    (),
    SessionError,
>)
    ensures
        r is Ok <==> heartbeat_timeout_ms > ready.heartbeat_interval_ms,
        r matches Err(e) ==> e is InvalidReady,
        heartbeat_timeout_ms <= ready.heartbeat_interval_ms ==> (r matches Err(SessionError::InvalidReady(m))
            && m@ == "heartbeat timeout "@ + decimal(heartbeat_timeout_ms as nat) + "ms must exceed worker interval "@
            + decimal(ready.heartbeat_interval_ms as nat) + "ms"@),
{
    if heartbeat_timeout_ms <= ready.heartbeat_interval_ms {
        let timeout = u64_to_decimal(heartbeat_timeout_ms);
        let interval = u64_to_decimal(ready.heartbeat_interval_ms);
        let head = concat3("heartbeat timeout ", timeout.as_str(), "ms must exceed worker interval ");
        let message = concat3(head.as_str(), interval.as_str(), "ms");
        return Err(SessionError::InvalidReady(message));
    }
    Ok(())
}

/// The file name of a worker's socket: `<session id>-<worker generation>.sock`.
pub fn socket_file_name(session_id: SessionId, worker_generation: u64) -> (r: String)
    ensures
        r@ == uuid_text(session_id.0) + "-"@ + decimal(worker_generation as nat) + ".sock"@,
{
    let id = session_id.to_string();
    let generation = u64_to_decimal(worker_generation);
    let head = concat3(id.as_str(), "-", generation.as_str());
    concat2(head.as_str(), ".sock")
}

/// The Sessions a Supervisor knows, by identifier, and the primary Session of
/// each Notebook. A handle is whatever the Supervisor keeps for a live Session.
pub struct SessionTable<H> {
    sessions: HashMap<u128, H>,
    primary: HashMap<u128, SessionId>,
}

impl<H> SessionTable<H> {
    /// The Sessions by identifier.
    pub closed spec fn sessions_map(&self) -> Map<SessionId, H> {
        Map::new(|id: SessionId| self.sessions@.contains_key(id.0), |id: SessionId| self.sessions@[id.0])
    }

    /// The primary Session of each Notebook.
    pub closed spec fn primary_map(&self) -> Map<NotebookId, SessionId> {
        Map::new(|n: NotebookId| self.primary@.contains_key(n.0), |n: NotebookId| self.primary@[n.0])
    }

    /// An empty table.
    pub fn new() -> (r: Self)
        ensures
            r.sessions_map() == Map::<SessionId, H>::empty(),
            r.primary_map() == Map::<NotebookId, SessionId>::empty(),
    {
        let r = SessionTable { sessions: HashMap::new(), primary: HashMap::new() };
        assert(r.sessions_map() =~= Map::<SessionId, H>::empty());
        assert(r.primary_map() =~= Map::<NotebookId, SessionId>::empty());
        r
    }

    /// Keeps `handle` as the Session `id`, replacing the one kept before.
    pub fn insert_session(&mut self, id: SessionId, handle: H)
        ensures
            final(self).sessions_map() == old(self).sessions_map().insert(id, handle),
            final(self).primary_map() == old(self).primary_map(),
    {
        broadcast use vstd::std_specs::hash::group_hash_axioms;

        let ghost before = self.sessions_map();
        let ghost hv = handle;
        self.sessions.insert(id.0, handle);
        assert(self.sessions_map() =~= before.insert(id, hv));
    }

    /// Makes `session` the primary Session of `notebook`.
    pub fn set_primary(&mut self, notebook: NotebookId, session: SessionId)
        ensures
            final(self).primary_map() == old(self).primary_map().insert(notebook, session),
            final(self).sessions_map() == old(self).sessions_map(),
    {
        broadcast use vstd::std_specs::hash::group_hash_axioms;

        let ghost before = self.primary_map();
        self.primary.insert(notebook.0, session);
        assert(self.primary_map() =~= before.insert(notebook, session));
    }

    /// The handle of Session `id`.
    pub fn get(&self, id: SessionId) -> (r: Option<&H>)
        ensures
            r is Some <==> self.sessions_map().contains_key(id),
            r matches Some(h) ==> *h == self.sessions_map()[id],
    {
        broadcast use vstd::std_specs::hash::group_hash_axioms;

        self.sessions.get(&id.0)
    }

    /// The primary Session of a Notebook.
    pub fn primary_of(&self, notebook: NotebookId) -> (r: Option<SessionId>)
        ensures
            r is Some <==> self.primary_map().contains_key(notebook),
            r matches Some(s) ==> s == self.primary_map()[notebook],
    {
        broadcast use vstd::std_specs::hash::group_hash_axioms;

        match self.primary.get(&notebook.0) {
            Some(s) => Some(*s),
            None => None,
        }
    }

    /// The handle of a Notebook's primary Session, when both are known.
    pub fn primary_handle(&self, notebook: NotebookId) -> (r: Option<&H>)
        ensures
            r is Some <==> (self.primary_map().contains_key(notebook) && self.sessions_map().contains_key(
                self.primary_map()[notebook],
            )),
            r matches Some(h) ==> *h == self.sessions_map()[self.primary_map()[notebook]],
    {
        match self.primary_of(notebook) {
            Some(id) => self.get(id),
            None => None,
        }
    }

    /// The identifiers of all known Sessions, each once, in the order the
    /// table walks them.
    pub fn session_ids(&self) -> (r: Vec<SessionId>)
        ensures
            r@.no_duplicates(),
            forall|i: int| 0 <= i < r@.len() ==> self.sessions_map().contains_key(#[trigger] r@[i]),
            forall|id: SessionId| #[trigger] self.sessions_map().contains_key(id) ==> r@.contains(id),
    {
        broadcast use vstd::std_specs::hash::group_hash_axioms;

        let mut out: Vec<SessionId> = Vec::new();
        for k in it: self.sessions.keys()
            invariant
                out@.len() == it.index(),
                forall|i: int|
                    #![trigger out@[i]]
                    #![trigger it.seq()[i]]
                    0 <= i < it.index() ==> out@[i].0 == *it.seq()[i],
                it.seq().unref().no_duplicates(),
                it.seq().unref().to_set() == self.sessions@.dom(),
                forall|i: int| 0 <= i < out@.len() ==> self.sessions@.contains_key((#[trigger] out@[i]).0),
                forall|key: u128| #[trigger] self.sessions@.contains_key(key) ==> exists|j: int|
                    0 <= j < it.seq().len() && *it.seq()[j] == key,
        {
            out.push(SessionId(*k));
        }
        proof {
            assert forall|id: SessionId| #[trigger] self.sessions_map().contains_key(id) implies out@.contains(id) by {
                assert(self.sessions@.contains_key(id.0));
                assert(exists|i: int| 0 <= i < out@.len() && (#[trigger] out@[i]).0 == id.0);
                let i = choose|i: int| 0 <= i < out@.len() && (#[trigger] out@[i]).0 == id.0;
                assert(out@[i] == id);
            }
        }
        out
    }
}

/// What `ensure_primary` does about a Notebook: keep its primary Session when
/// there is one that is not stopped (a crashed Session is kept, so that its
/// failure evidence stays until a restart is chosen), else start a new one.
pub fn ensure_primary_reuses(existing_state: Option<SessionState>) -> (r: bool)
    ensures
        r == (existing_state matches Some(s) && s != SessionState::Stopped),
{
    match existing_state {
        Some(SessionState::Stopped) => false,
        Some(_) => true,
        None => false,
    }
}

/// The Session that a restart starts: the same logical Session at the next
/// worker generation when there was one, else a new Session at generation 1.
#[derive(Debug, Clone, Copy, PartialEq, Eq)]
pub struct RestartPlan {
    /// The previous worker must be asked to stop first.
    pub stop_first: bool,
    /// The previous worker must be waited for until it has ended.
    pub wait_first: bool,
    /// The Session identifier to keep; `None` for a new one.
    pub session_id: Option<SessionId>,
    pub worker_generation: u64,
    /// The start time to keep; `None` for now.
    pub started_at: Option<UtcTimestamp>,
}

/// What the Supervisor knows of a Notebook's primary Session when a restart is asked.
#[derive(Debug, Clone, Copy, PartialEq, Eq)]
pub struct PrimaryState {
    pub session_id: SessionId,
    pub state: SessionState,
    pub worker_generation: u64,
    pub started_at: UtcTimestamp,
}

/// Plans a restart of a Notebook's primary Session.
pub fn restart_plan(existing: Option<PrimaryState>) -> (r: RestartPlan)
    ensures
        match existing {
            None => r == RestartPlan {
                stop_first: false,
                wait_first: false,
                session_id: None,
                worker_generation: 1,
                started_at: None,
            },
            Some(p) => {
                &&& r.wait_first == !terminal_state(p.state)
                &&& r.stop_first == (!terminal_state(p.state) && p.state != SessionState::Stopping)
                &&& r.session_id == Some(p.session_id)
                &&& r.worker_generation == (if p.worker_generation == u64::MAX {
                    u64::MAX
                } else {
                    (p.worker_generation + 1) as u64
                })
                &&& r.started_at == Some(p.started_at)
            },
        },
{
    match existing {
        None => RestartPlan {
            stop_first: false,
            wait_first: false,
            session_id: None,
            worker_generation: 1,
            started_at: None,
        },
        Some(p) => {
            let live = !is_terminal_state(p.state);
            let stopping = match p.state {
                SessionState::Stopping => true,
                _ => false,
            };
            RestartPlan {
                stop_first: live && !stopping,
                wait_first: live,
                session_id: Some(p.session_id),
                worker_generation: if p.worker_generation == u64::MAX {
                    u64::MAX
                } else {
                    p.worker_generation + 1
                },
                started_at: Some(p.started_at),
            }
        },
    }
}

/// Whether a Session must be told that its Project's environment changed:
/// a live Session of that Project started on another environment generation.
pub open spec fn stale_session(
    project_id: ProjectId,
    current_generation: u64,
    session_project: ProjectId,
    session_generation: u64,
    state: SessionState,
) -> bool {
    session_project == project_id && session_generation != current_generation && !terminal_state(state)
}

/// Decides `stale_session`.
pub fn is_stale_session(
    project_id: ProjectId,
    current_generation: u64,
    session_project: ProjectId,
    session_generation: u64,
    state: SessionState,
) -> (r: bool)
    ensures
        r == stale_session(project_id, current_generation, session_project, session_generation, state),
{
    session_project.0 == project_id.0 && session_generation != current_generation && is_live_state(state)
}

/// Putting a Session in the table and reading it back gives that Session;
/// other Sessions and the primary assignments stay as they were.
pub proof fn lemma_table_insert_get<H>(before: Map<SessionId, H>, id: SessionId, h: H, other: SessionId)
    requires
        other != id,
    ensures
        before.insert(id, h)[id] == h,
        before.insert(id, h).contains_key(other) == before.contains_key(other),
        before.contains_key(other) ==> before.insert(id, h)[other] == before[other],
{
}

} // verus!
