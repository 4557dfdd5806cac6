//! The decisions of a Session actor. The actor owns one worker; it takes
//! control requests, execute requests, inspection requests, worker frames and
//! health observations one at a time, and answers each with the ordered list of
//! actions to perform. The Runtime performs them (I/O, signals, channels) and
//! hands back the next input.
use vstd::prelude::*;

use crate::domain::{
    ExecutionOrigin, OperationId, OperationStatus, SessionEvidenceKind, SessionId, SessionState,
};
use crate::ids::uuid_text;
use crate::json::{member, object_keys, opt_str_json, str_json, JsonValue};
use crate::protocol::{check_payload_size, FrameError, DEFAULT_MAX_FRAME_BYTES};
use crate::protocol::worker::{method, WorkerError, WorkerFrame, WORKER_PROTOCOL_V1};
use crate::session::error::SessionError;
use crate::session::evidence::{bounded_failure_cell_id, format_exit_status, FAILURE_CELL_ID_CHARS};
use crate::session::inspection::SessionInspectionError;
use crate::session::transaction::{
    evidence_of_frame, execute_refusal, identity_refusal, idle_refusal, inspection_refusal, lifecycle_refusal,
    execute_transaction_ok, frame_identity_ok, idle_transaction_ok, inspection_transaction_ok,
    lifecycle_step, session_evidence_from_worker_frame,
    validate_execute_lifecycle, validate_worker_frame_identity, validate_worker_frame_transaction,
    ExecuteLifecycle, LifecycleView, WorkerFrameExpectation,
};
use crate::text::{bounded_chars, concat2, str_eq, string_of};
use crate::worker::{violation, WorkerTransportError, STATUS_SUCCEEDED};

verus! {

/// A control request to a Session.
#[derive(Debug, Clone, Copy, PartialEq, Eq, Structural)]
pub enum ControlRequest {
    Interrupt,
    Stop,
    MarkEnvironmentStale,
}

/// A queued cell execution.
#[derive(Debug)]
pub struct ExecuteRequest {
    pub operation_id: OperationId,
    pub origin: ExecutionOrigin,
    pub cell_id: Option<String>,
    pub source: String,
}

/// How a worker process was found to have ended.
#[derive(Debug, Clone)]
pub struct ExitInfo {
    pub code: Option<i32>,
    pub signal: Option<i32>,
    /// The platform's own description, used when there is neither code nor signal.
    pub fallback: String,
}

/// What the Runtime observed of the worker process on a health poll.
#[derive(Debug)]
pub enum HealthObservation {
    /// The process runs; this long since the worker was last heard from.
    Running { silent_ms: u64 },
    /// The process has exited.
    Exited(ExitInfo),
    /// Polling the process failed; the operating system's message.
    PollFailed(String),
}

/// One thing for the Runtime to do, in order.
#[derive(Debug)]
pub enum ActorAction {
    /// Publish a new Session state (and record it as evidence).
    SetState(SessionState),
    /// Note the operation (and its bounded cell id) as the one running.
    SetCurrentOperation { operation_id: OperationId, cell_id: Option<String> },
    /// Send a frame to the worker.
    WriteFrame(WorkerFrame),
    /// Send SIGINT to the worker.
    SendSigint,
    /// Report an operation as finished and clear the current operation.
    FinishOperation { operation_id: OperationId, status: OperationStatus },
    /// The worker was heard from: restart the heartbeat clock.
    MarkActivity,
    /// Record an entry in the recent-evidence tail.
    RecordEvidence {
        kind: SessionEvidenceKind,
        operation_id: Option<OperationId>,
        detail: Option<String>,
    },
    /// Forward a worker frame to Session subscribers.
    PublishFrame(WorkerFrame),
    /// Answer the pending inspection request.
    ReplyInspection(Result<JsonValue, SessionInspectionError>),
    /// Answer the pending inspection request with "unavailable", described by
    /// the error of the `RecordCrash` that follows.
    ReplyInspectionUnavailable,
    /// Close the execute queue and report every queued operation as cancelled;
    /// close the inspection queue and answer every queued inspection as closed.
    CancelPendingWork,
    /// Close the inspection queue and answer every queued inspection as closed.
    CancelPendingInspections,
    /// Stop the worker cooperatively (Stopping, shutdown request, wait, then
    /// terminate if needed, Stopped).
    GracefulStop,
    /// Record a crash: collect evidence, end the worker, finish the current
    /// operation as failed, publish Crashed and the failure record.
    RecordCrash(SessionError),
    /// Record an unexpected exit: collect evidence, finish the current
    /// operation as failed, publish Crashed and the failure record.
    RecordExit(ExitInfo),
}

/// The kind of an action, for contracts.
#[derive(PartialEq, Eq)]
pub enum ActionKind {
    SetState(SessionState),
    SetCurrentOperation(OperationId),
    WriteFrame,
    SendSigint,
    FinishOperation(OperationId, OperationStatus),
    MarkActivity,
    RecordEvidence,
    PublishFrame,
    ReplyInspection,
    ReplyInspectionUnavailable,
    CancelPendingWork,
    CancelPendingInspections,
    GracefulStop,
    RecordCrash,
    RecordExit,
}

pub open spec fn kind_of(a: ActorAction) -> ActionKind {
    match a {
        ActorAction::SetState(s) => ActionKind::SetState(s),
        ActorAction::SetCurrentOperation { operation_id, .. } => ActionKind::SetCurrentOperation(
            operation_id,
        ),
        ActorAction::WriteFrame(_) => ActionKind::WriteFrame,
        ActorAction::SendSigint => ActionKind::SendSigint,
        ActorAction::FinishOperation { operation_id, status } => ActionKind::FinishOperation(
            operation_id,
            status,
        ),
        ActorAction::MarkActivity => ActionKind::MarkActivity,
        ActorAction::RecordEvidence { .. } => ActionKind::RecordEvidence,
        ActorAction::PublishFrame(_) => ActionKind::PublishFrame,
        ActorAction::ReplyInspection(_) => ActionKind::ReplyInspection,
        ActorAction::ReplyInspectionUnavailable => ActionKind::ReplyInspectionUnavailable,
        ActorAction::CancelPendingWork => ActionKind::CancelPendingWork,
        ActorAction::CancelPendingInspections => ActionKind::CancelPendingInspections,
        ActorAction::GracefulStop => ActionKind::GracefulStop,
        ActorAction::RecordCrash(_) => ActionKind::RecordCrash,
        ActorAction::RecordExit(_) => ActionKind::RecordExit,
    }
}

/// The kinds of a list of actions, in order.
pub open spec fn kinds(actions: Seq<ActorAction>) -> Seq<ActionKind> {
    actions.map_values(|a: ActorAction| kind_of(a))
}

/// The kinds of the actions of a crash, after an inspection is answered as
/// unavailable when one was pending.
pub open spec fn crash_kinds(inspecting: bool) -> Seq<ActionKind> {
    if inspecting {
        seq![ActionKind::ReplyInspectionUnavailable, ActionKind::CancelPendingWork, ActionKind::RecordCrash]
    } else {
        seq![ActionKind::CancelPendingWork, ActionKind::RecordCrash]
    }
}

/// The actions of a crash with `error`.
pub open spec fn crash_actions(error: SessionError, inspecting: bool) -> Seq<ActorAction> {
    if inspecting {
        seq![
            ActorAction::ReplyInspectionUnavailable,
            ActorAction::CancelPendingWork,
            ActorAction::RecordCrash(error),
        ]
    } else {
        seq![ActorAction::CancelPendingWork, ActorAction::RecordCrash(error)]
    }
}

/// `r` is a crash whose error is a protocol violation with message `m`.
pub open spec fn crashed_on_violation(r: Seq<ActorAction>, inspecting: bool, m: Seq<char>) -> bool {
    &&& kinds(r) == crash_kinds(inspecting)
    &&& r.last() matches ActorAction::RecordCrash(SessionError::WorkerTransport(WorkerTransportError::Protocol(x)))
    &&& x@ == m
}

/// The text of how a worker process ended.
pub open spec fn exit_text(exit: ExitInfo) -> Seq<char> {
    match crate::session::evidence::exit_status_text(exit.code, exit.signal) {
        Some(t) => t,
        None => exit.fallback@,
    }
}

/// `f` is the execute request frame of `request` in Session `session_id`: id and
/// `operation_id` are the operation id; the payload carries the cell id, the
/// operation id, the origin and the source.
pub open spec fn is_execute_frame(f: WorkerFrame, session_id: SessionId, request: ExecuteRequest) -> bool {
    f matches WorkerFrame::Request { protocol, id, session_id: sid, method: m, payload }
        && protocol == WORKER_PROTOCOL_V1 && id@ == uuid_text(request.operation_id.0)
        && sid@ == uuid_text(session_id.0) && m@ == method::EXECUTE@
        && object_keys(payload, seq!["cell_id"@, "operation_id"@, "origin"@, "source"@])
        && opt_str_json(member(payload, 0), crate::project::opt_view(request.cell_id))
        && str_json(member(payload, 1), uuid_text(request.operation_id.0))
        && str_json(member(payload, 2), origin_text(request.origin))
        && str_json(member(payload, 3), request.source@)
}

/// A frame fits the actor: it belongs to the Session and to what the actor is
/// waiting for (and, while executing, to the execute lifecycle).
pub open spec fn frame_accepted(v: ActorView, frame: WorkerFrame) -> bool {
    frame_identity_ok(v.session_id, frame) && match v.phase {
        PhaseView::Idle => idle_transaction_ok(frame),
        PhaseView::Executing { request_id, lifecycle, .. } => {
            &&& execute_transaction_ok(request_id, frame)
            &&& lifecycle_step(lifecycle, frame) is Some
        },
        PhaseView::Inspecting { request_id } => inspection_transaction_ok(request_id, frame),
        PhaseView::Ended => false,
    }
}

/// Why a frame that does not fit the actor is refused: the message of the
/// first check it fails.
pub open spec fn frame_refusal(v: ActorView, frame: WorkerFrame) -> Seq<char> {
    if !frame_identity_ok(v.session_id, frame) {
        identity_refusal(v.session_id, frame)
    } else {
        match v.phase {
            PhaseView::Idle => idle_refusal(frame),
            PhaseView::Executing { request_id, lifecycle, .. } => if !execute_transaction_ok(request_id, frame) {
                execute_refusal(request_id, frame)
            } else {
                lifecycle_refusal(lifecycle, frame)
            },
            PhaseView::Inspecting { request_id } => inspection_refusal(request_id, frame),
            PhaseView::Ended => Seq::empty(),
        }
    }
}

/// Why an inspection response whose result and error do not fit its `ok` is refused.
pub open spec fn inspection_response_refusal(ok: bool, result: Option<JsonValue>, error: Option<WorkerError>) -> Option<Seq<char>> {
    if ok && error is Some {
        Some("successful inspection response included an error"@)
    } else if ok && result is None {
        Some("successful inspection response omitted result"@)
    } else if !ok && result is Some {
        Some("failed inspection response included a result"@)
    } else if !ok && error is None {
        Some("failed inspection response omitted error"@)
    } else {
        None
    }
}

/// How many evidence entries a frame leaves: one, or none.
pub open spec fn evidence_count(frame: WorkerFrame) -> int {
    if evidence_of_frame(frame) is Some {
        1
    } else {
        0
    }
}

/// `r` starts the answer to an accepted frame: the heartbeat clock restarts,
/// then the frame's evidence entry is recorded, if it leaves one.
pub open spec fn heard(r: Seq<ActorAction>, frame: WorkerFrame) -> bool {
    &&& r.len() >= 1 + evidence_count(frame)
    &&& r[0] == ActorAction::MarkActivity
    &&& match evidence_of_frame(frame) {
        None => true,
        Some((kind, operation_id, detail)) => r[1] matches ActorAction::RecordEvidence { kind: k, operation_id: o, detail: d }
            && k == kind && o == operation_id && crate::project::opt_view(d) == detail,
    }
}

/// The actions that answer the frame `frame` arriving in the actor `v`.
pub open spec fn frame_actions(v: ActorView, frame: WorkerFrame, r: Seq<ActorAction>) -> bool {
    let n = evidence_count(frame);
    if !frame_accepted(v, frame) {
        crashed_on_violation(r, v.phase is Inspecting, frame_refusal(v, frame))
    } else {
        &&& heard(r, frame)
        &&& match (v.phase, frame) {
            (PhaseView::Executing { operation_id, interrupted, .. }, WorkerFrame::Response { ok, result, .. }) => {
                &&& r.len() == n + 4
                &&& r[n + 1] == ActorAction::PublishFrame(frame)
                &&& r[n + 2] == (ActorAction::FinishOperation {
                    operation_id,
                    status: completion_status(interrupted, ok, result),
                })
                &&& r[n + 3] == ActorAction::SetState(resting_state(v.stale_environment))
            },
            (PhaseView::Inspecting { .. }, WorkerFrame::Response { ok, result, error, .. }) => {
                match inspection_response_refusal(ok, result, error) {
                    Some(m) => {
                        &&& r.len() == n + 4
                        &&& crashed_on_violation(r.skip(n + 1), true, m)
                    },
                    None => {
                        &&& r.len() == n + 2
                        &&& if ok {
                            r[n + 1] == ActorAction::ReplyInspection(Ok(result->0))
                        } else {
                            r[n + 1] == ActorAction::ReplyInspection(
                                Err(
                                    SessionInspectionError::WorkerRequest {
                                        code: error->0.code,
                                        summary: error->0.summary,
                                    },
                                ),
                            )
                        }
                    },
                }
            },
            (PhaseView::Inspecting { .. }, _) => r.len() == n + 1,
            _ => r.len() == n + 2 && r[n + 1] == ActorAction::PublishFrame(frame),
        }
    }
}

/// What the actor is doing.
#[derive(Debug)]
pub enum ActorPhase {
    /// Waiting for work.
    Idle,
    /// Running one cell.
    Executing {
        operation_id: OperationId,
        request_id: String,
        interrupted: bool,
        lifecycle: ExecuteLifecycle,
    },
    /// Waiting for the answer to one inspection request.
    Inspecting { request_id: String },
    /// The worker is gone; the actor takes no more input.
    Ended,
}

/// The model of the phase.
pub enum PhaseView {
    Idle,
    Executing {
        operation_id: OperationId,
        request_id: Seq<char>,
        interrupted: bool,
        lifecycle: LifecycleView,
    },
    Inspecting { request_id: Seq<char> },
    Ended,
}

/// The decision state of one Session actor.
#[derive(Debug)]
pub struct SessionActor {
    pub session_id: SessionId,
    pub state: SessionState,
    pub stale_environment: bool,
    pub phase: ActorPhase,
}

/// The model of the actor.
pub struct ActorView {
    pub session_id: SessionId,
    pub state: SessionState,
    pub stale_environment: bool,
    pub phase: PhaseView,
}

impl View for SessionActor {
    type V = ActorView;

    open spec fn view(&self) -> ActorView {
        ActorView {
            session_id: self.session_id,
            state: self.state,
            stale_environment: self.stale_environment,
            phase: match self.phase {
                ActorPhase::Idle => PhaseView::Idle,
                ActorPhase::Executing { operation_id, request_id, interrupted, lifecycle } => {
                    PhaseView::Executing {
                        operation_id,
                        request_id: request_id@,
                        interrupted,
                        lifecycle: lifecycle@,
                    }
                },
                ActorPhase::Inspecting { request_id } => PhaseView::Inspecting {
                    request_id: request_id@,
                },
                ActorPhase::Ended => PhaseView::Ended,
            },
        }
    }
}

/// The status that ends an execution on its response: interrupted if an
/// interrupt was sent, otherwise succeeded exactly when the response is `ok`
/// with result status `SUCCEEDED`, otherwise failed.
pub open spec fn completion_status(interrupted: bool, ok: bool, result: Option<JsonValue>) -> OperationStatus {
    if interrupted {
        OperationStatus::Interrupted
    } else if ok && (result matches Some(r) && r.field_str("status"@) == Some(STATUS_SUCCEEDED@)) {
        OperationStatus::Succeeded
    } else {
        OperationStatus::Failed
    }
}

/// The state a Session returns to after work: Idle, or StaleEnvironment once
/// its Project environment changed.
pub open spec fn resting_state(stale: bool) -> SessionState {
    if stale {
        SessionState::StaleEnvironment
    } else {
        SessionState::Idle
    }
}

/// The wire name of an execution origin.
pub open spec fn origin_text(origin: ExecutionOrigin) -> Seq<char> {
    match origin {
        ExecutionOrigin::Human => "HUMAN"@,
        ExecutionOrigin::Mcp => "MCP"@,
    }
}

/// The wire name of an execution origin, as `origin_text` states.
pub fn origin_name(origin: ExecutionOrigin) -> (r: &'static str)
    ensures
        r@ == origin_text(origin),
{
    match origin {
        ExecutionOrigin::Human => "HUMAN",
        ExecutionOrigin::Mcp => "MCP",
    }
}

/// The execute request frame for a cell: id and `operation_id` are the
/// operation id; the payload also carries the cell id, the source and the origin.
pub fn execute_request_frame(session_id: SessionId, request: &ExecuteRequest) -> (r: WorkerFrame)
    ensures
        is_execute_frame(r, session_id, *request),
{
    let op = request.operation_id.to_string();
    let cell_id = match &request.cell_id {
        Some(c) => JsonValue::String(c.clone()),
        None => JsonValue::Null,
    };
    let mut entries: Vec<(String, JsonValue)> = Vec::new();
    entries.push((string_of("cell_id"), cell_id));
    entries.push((string_of("operation_id"), JsonValue::String(op.clone())));
    entries.push((string_of("origin"), JsonValue::String(string_of(origin_name(request.origin)))));
    entries.push((string_of("source"), JsonValue::String(request.source.clone())));
    WorkerFrame::Request {
        protocol: WORKER_PROTOCOL_V1,
        id: op,
        session_id: session_id.to_string(),
        method: string_of(method::EXECUTE),
        payload: JsonValue::Object(entries),
    }
}

/// The shutdown request frame of a graceful stop.
pub fn shutdown_request_frame(session_id: SessionId) -> (r: WorkerFrame)
    ensures
        r matches WorkerFrame::Request { protocol, id, session_id: sid, method: m, payload }
            && protocol == WORKER_PROTOCOL_V1 && id@ == "shutdown-"@ + uuid_text(session_id.0)
            && sid@ == uuid_text(session_id.0) && m@ == method::SHUTDOWN@
            && object_keys(payload, Seq::empty()),
{
    let id = session_id.to_string();
    WorkerFrame::Request {
        protocol: WORKER_PROTOCOL_V1,
        id: concat2("shutdown-", id.as_str()),
        session_id: session_id.to_string(),
        method: string_of(method::SHUTDOWN),
        payload: JsonValue::Object(Vec::new()),
    }
}

/// The handshake request frame for a worker generation.
pub fn handshake_request_frame(session_id: SessionId, request_id: &str) -> (r: WorkerFrame)
    ensures
        r matches WorkerFrame::Request { protocol, id, session_id: sid, method: m, payload }
            && protocol == WORKER_PROTOCOL_V1 && id@ == request_id@ && sid@ == uuid_text(session_id.0)
            && m@ == method::HANDSHAKE@ && object_keys(payload, Seq::empty()),
{
    WorkerFrame::Request {
        protocol: WORKER_PROTOCOL_V1,
        id: string_of(request_id),
        session_id: session_id.to_string(),
        method: string_of(method::HANDSHAKE),
        payload: JsonValue::Object(Vec::new()),
    }
}

/// Refuses an execute request whose encoded frame payload exceeds the default
/// frame limit, before it is queued.
pub fn validate_execute_request_frame(encoded: &[u8]) -> (r: Result<(), SessionError>)
    ensures
        encoded@.len() <= DEFAULT_MAX_FRAME_BYTES ==> r is Ok,
        encoded@.len() > DEFAULT_MAX_FRAME_BYTES ==> (match r {
            Err(SessionError::WorkerTransport(WorkerTransportError::Frame(FrameError::TooLarge(n)))) => n
                == encoded@.len() as usize,
            _ => false,
        }),
{
    match check_payload_size(encoded, DEFAULT_MAX_FRAME_BYTES) {
        Ok(()) => Ok(()),
        Err(e) => Err(SessionError::WorkerTransport(WorkerTransportError::Frame(e))),
    }
}

fn exit_description(exit: &ExitInfo) -> (r: String)
    ensures
        r@ == match crate::session::evidence::exit_status_text(exit.code, exit.signal) {
            Some(t) => t,
            None => exit.fallback@,
        },
{
    match format_exit_status(exit.code, exit.signal) {
        Some(s) => s,
        None => exit.fallback.clone(),
    }
}

impl SessionActor {
    /// An actor whose worker just completed its handshake: Idle.
    pub fn new(session_id: SessionId) -> (r: Self)
        ensures
            r@.session_id == session_id,
            r@.state == SessionState::Idle,
            !r@.stale_environment,
            r@.phase is Idle,
    {
        SessionActor {
            session_id,
            state: SessionState::Idle,
            stale_environment: false,
            phase: ActorPhase::Idle,
        }
    }

    /// Whether the actor has ended.
    pub fn is_ended(&self) -> (r: bool)
        ensures
            r == (self@.phase is Ended),
    {
        match self.phase {
            ActorPhase::Ended => true,
            _ => false,
        }
    }

    /// Whether the actor may take a new execute or inspection request.
    pub fn is_idle(&self) -> (r: bool)
        ensures
            r == (self@.phase is Idle),
    {
        match self.phase {
            ActorPhase::Idle => true,
            _ => false,
        }
    }

    /// A control request (`None`: the control channel closed, which stops the Session).
    ///
    /// Idle: stop cancels pending work and stops the worker; a stale mark
    /// publishes StaleEnvironment; an interrupt does nothing. Executing: the
    /// first interrupt publishes Interrupting and sends SIGINT, later ones do
    /// nothing; a stale mark is remembered for the end of the execution; stop
    /// cancels the operation, stops the worker and cancels pending work.
    /// Inspecting: a stale mark publishes StaleEnvironment; stop stops the
    /// worker, answers the inspection as closed and cancels pending work.
    pub fn on_control(&mut self, control: Option<ControlRequest>) -> (r: Vec<ActorAction>)
        requires
            !(old(self)@.phase is Ended),
        ensures
            final(self)@.session_id == old(self)@.session_id,
            old(self)@.stale_environment ==> final(self)@.stale_environment,
            control == Some(ControlRequest::MarkEnvironmentStale) ==> final(self)@.stale_environment,
            control == Some(ControlRequest::MarkEnvironmentStale) ==> final(self)@.phase == old(self)@.phase,
            (control is None || control == Some(ControlRequest::Stop)) ==> final(self)@.phase is Ended,
            match (old(self)@.phase, control) {
                (PhaseView::Idle, None) | (PhaseView::Idle, Some(ControlRequest::Stop)) => kinds(
                    r@,
                ) == seq![ActionKind::CancelPendingWork, ActionKind::GracefulStop],
                (PhaseView::Idle, Some(ControlRequest::MarkEnvironmentStale)) => kinds(r@) == seq![
                    ActionKind::SetState(SessionState::StaleEnvironment),
                ] && final(self)@.state == SessionState::StaleEnvironment,
                (PhaseView::Idle, Some(ControlRequest::Interrupt)) => r@.len() == 0 && final(self)@
                    == old(self)@,
                (
                    PhaseView::Executing { operation_id, request_id, interrupted, lifecycle },
                    Some(ControlRequest::Interrupt),
                ) => if interrupted {
                    r@.len() == 0 && final(self)@ == old(self)@
                } else {
                    kinds(r@) == seq![
                        ActionKind::SetState(SessionState::Interrupting),
                        ActionKind::SendSigint,
                    ] && final(self)@.state == SessionState::Interrupting && final(self)@.phase
                        == (PhaseView::Executing {
                        operation_id,
                        request_id,
                        interrupted: true,
                        lifecycle,
                    })
                },
                (PhaseView::Executing { .. }, Some(ControlRequest::MarkEnvironmentStale)) => r@.len()
                    == 0 && final(self)@.state == old(self)@.state,
                (PhaseView::Executing { operation_id, .. }, _) => kinds(r@) == seq![
                    ActionKind::FinishOperation(operation_id, OperationStatus::Cancelled),
                    ActionKind::GracefulStop,
                    ActionKind::CancelPendingWork,
                ],
                (PhaseView::Inspecting { .. }, Some(ControlRequest::Interrupt)) => r@.len() == 0
                    && final(self)@ == old(self)@,
                (PhaseView::Inspecting { .. }, Some(ControlRequest::MarkEnvironmentStale)) => kinds(
                    r@,
                ) == seq![ActionKind::SetState(SessionState::StaleEnvironment)] && final(self)@.state
                    == SessionState::StaleEnvironment,
                (PhaseView::Inspecting { .. }, _) => kinds(r@) == seq![
                    ActionKind::GracefulStop,
                    ActionKind::ReplyInspection,
                    ActionKind::CancelPendingWork,
                ],
                _ => true,
            },
            old(self)@.phase is Inspecting && (control is None || control == Some(ControlRequest::Stop))
                ==> r@[1] == ActorAction::ReplyInspection(Err(SessionInspectionError::CommandChannelClosed)),
    {
        let mut out: Vec<ActorAction> = Vec::new();
        let stop = match control {
            None => true,
            Some(ControlRequest::Stop) => true,
            _ => false,
        };
        let stale = match control {
            Some(ControlRequest::MarkEnvironmentStale) => true,
            _ => false,
        };
        let (executing, inspecting, interrupted, op) = match &self.phase {
            ActorPhase::Executing { operation_id, interrupted, .. } => (
                true,
                false,
                *interrupted,
                Some(*operation_id),
            ),
            ActorPhase::Inspecting { .. } => (false, true, false, None),
            _ => (false, false, false, None),
        };
        if executing {
            if stop {
                out.push(
                    ActorAction::FinishOperation {
                        operation_id: op.unwrap(),
                        status: OperationStatus::Cancelled,
                    },
                );
                out.push(ActorAction::GracefulStop);
                out.push(ActorAction::CancelPendingWork);
                self.phase = ActorPhase::Ended;
            } else if stale {
                self.stale_environment = true;
            } else if !interrupted {
                self.mark_interrupted();
                self.state = SessionState::Interrupting;
                out.push(ActorAction::SetState(SessionState::Interrupting));
                out.push(ActorAction::SendSigint);
            }
        } else if inspecting {
            if stop {
                out.push(ActorAction::GracefulStop);
                out.push(
                    ActorAction::ReplyInspection(Err(SessionInspectionError::CommandChannelClosed)),
                );
                out.push(ActorAction::CancelPendingWork);
                self.phase = ActorPhase::Ended;
            } else if stale {
                self.stale_environment = true;
                self.state = SessionState::StaleEnvironment;
                out.push(ActorAction::SetState(SessionState::StaleEnvironment));
            }
        } else {
            if stop {
                out.push(ActorAction::CancelPendingWork);
                out.push(ActorAction::GracefulStop);
                self.phase = ActorPhase::Ended;
            } else if stale {
                self.stale_environment = true;
                self.state = SessionState::StaleEnvironment;
                out.push(ActorAction::SetState(SessionState::StaleEnvironment));
            }
        }
        proof {
            assert(kinds(out@) =~= out@.map_values(|a: ActorAction| kind_of(a)));
            if out@.len() == 1 {
                assert(kinds(out@) =~= seq![kind_of(out@[0])]);
            }
            if out@.len() == 2 {
                assert(kinds(out@) =~= seq![kind_of(out@[0]), kind_of(out@[1])]);
            }
            if out@.len() == 3 {
                assert(kinds(out@) =~= seq![kind_of(out@[0]), kind_of(out@[1]), kind_of(out@[2])]);
            }
        }
        out
    }

    /// Marks the running execution as interrupted.
    fn mark_interrupted(&mut self)
        requires
            old(self)@.phase is Executing,
        ensures
            final(self)@ == (ActorView {
                phase: match old(self)@.phase {
                    PhaseView::Executing { operation_id, request_id, lifecycle, .. } => {
                        PhaseView::Executing { operation_id, request_id, interrupted: true, lifecycle }
                    },
                    other => other,
                },
                ..old(self)@
            }),
    {
        match &mut self.phase {
            ActorPhase::Executing { interrupted, .. } => {
                *interrupted = true;
            },
            _ => {},
        }
    }

    /// The execute queue closed: pending inspections are answered and the worker stops.
    pub fn on_execute_queue_closed(&mut self) -> (r: Vec<ActorAction>)
        requires
            old(self)@.phase is Idle,
        ensures
            final(self)@.phase is Ended,
            final(self)@.session_id == old(self)@.session_id,
            final(self)@.stale_environment == old(self)@.stale_environment,
            kinds(r@) == seq![ActionKind::CancelPendingInspections, ActionKind::GracefulStop],
    {
        self.phase = ActorPhase::Ended;
        let mut out: Vec<ActorAction> = Vec::new();
        out.push(ActorAction::CancelPendingInspections);
        out.push(ActorAction::GracefulStop);
        assert(kinds(out@) =~= seq![ActionKind::CancelPendingInspections, ActionKind::GracefulStop]);
        out
    }

    /// Starts one execute request: notes it as current, publishes Executing and
    /// sends the request to the worker.
    pub fn begin_execute(&mut self, request: ExecuteRequest) -> (r: Vec<ActorAction>)
        requires
            old(self)@.phase is Idle,
        ensures
            final(self)@.session_id == old(self)@.session_id,
            final(self)@.stale_environment == old(self)@.stale_environment,
            final(self)@.state == SessionState::Executing,
            final(self)@.phase matches PhaseView::Executing {
                operation_id,
                request_id,
                interrupted,
                lifecycle,
            } && operation_id == request.operation_id && request_id == crate::ids::uuid_text(
                request.operation_id.0,
            ) && !interrupted && lifecycle == (LifecycleView {
                started: false,
                next_sequence: 1,
                finished: None,
            }),
            kinds(r@) == seq![
                ActionKind::SetCurrentOperation(request.operation_id),
                ActionKind::SetState(SessionState::Executing),
                ActionKind::WriteFrame,
            ],
            r@.len() == 3,
            r@[0] matches ActorAction::SetCurrentOperation { operation_id, cell_id } && operation_id
                == request.operation_id && crate::project::opt_view(cell_id) == match request.cell_id {
                Some(c) => Some(bounded_chars(c@, FAILURE_CELL_ID_CHARS as nat)),
                None => None,
            },
            r@[1] == ActorAction::SetState(SessionState::Executing),
            r@[2] matches ActorAction::WriteFrame(f) && is_execute_frame(f, old(self)@.session_id, request),
    {
        let frame = execute_request_frame(self.session_id, &request);
        let cell_id = match &request.cell_id {
            Some(c) => bounded_failure_cell_id(Some(c.as_str())),
            None => None,
        };
        let mut out: Vec<ActorAction> = Vec::new();
        out.push(
            ActorAction::SetCurrentOperation { operation_id: request.operation_id, cell_id },
        );
        self.state = SessionState::Executing;
        out.push(ActorAction::SetState(SessionState::Executing));
        out.push(ActorAction::WriteFrame(frame));
        self.phase = ActorPhase::Executing {
            operation_id: request.operation_id,
            request_id: request.operation_id.to_string(),
            interrupted: false,
            lifecycle: ExecuteLifecycle::new(),
        };
        assert(kinds(out@) =~= seq![
            ActionKind::SetCurrentOperation(request.operation_id),
            ActionKind::SetState(SessionState::Executing),
            ActionKind::WriteFrame,
        ]);
        out
    }

    /// Starts one inspection request under a fresh request id `inspect-<uuid>`.
    pub fn begin_inspection(&mut self, method_name: &str, payload: JsonValue) -> (r: Vec<ActorAction>)
        requires
            old(self)@.phase is Idle,
        ensures
            final(self)@.session_id == old(self)@.session_id,
            final(self)@.state == old(self)@.state,
            final(self)@.stale_environment == old(self)@.stale_environment,
            final(self)@.phase is Inspecting,
            kinds(r@) == seq![ActionKind::WriteFrame],
            r@.len() == 1,
            match (final(self)@.phase, r@[0]) {
                (
                    PhaseView::Inspecting { request_id },
                    ActorAction::WriteFrame(WorkerFrame::Request { protocol, id, session_id: sid, method: m, payload: p }),
                ) => {
                    &&& protocol == WORKER_PROTOCOL_V1
                    &&& id@ == request_id
                    &&& sid@ == uuid_text(old(self)@.session_id.0)
                    &&& m@ == method_name@
                    &&& p == payload
                    &&& exists|u: u128| request_id == "inspect-"@ + #[trigger] uuid_text(u)
                },
                _ => false,
            },
    {
        let op = OperationId::new();
        let op_text = op.to_string();
        let request_id = concat2("inspect-", op_text.as_str());
        let frame = WorkerFrame::Request {
            protocol: WORKER_PROTOCOL_V1,
            id: request_id.clone(),
            session_id: self.session_id.to_string(),
            method: string_of(method_name),
            payload,
        };
        self.phase = ActorPhase::Inspecting { request_id };
        let mut out: Vec<ActorAction> = Vec::new();
        out.push(ActorAction::WriteFrame(frame));
        assert(kinds(out@) =~= seq![ActionKind::WriteFrame]);
        assert(uuid_text(op.0) == op_text@);
        out
    }

    /// A crash after the actions already decided in `out`.
    fn crash_after(&mut self, out: Vec<ActorAction>, error: SessionError, inspecting: bool) -> (r: Vec<
        ActorAction,
    >)
        ensures
            final(self)@.phase is Ended,
            final(self)@.session_id == old(self)@.session_id,
            final(self)@.stale_environment == old(self)@.stale_environment,
            r@ == out@ + crash_actions(error, inspecting),
            kinds(r@) == kinds(out@) + if inspecting {
                seq![
                    ActionKind::ReplyInspectionUnavailable,
                    ActionKind::CancelPendingWork,
                    ActionKind::RecordCrash,
                ]
            } else {
                seq![ActionKind::CancelPendingWork, ActionKind::RecordCrash]
            },
    {
        let mut out = out;
        let ghost before = out@;
        let mut tail = self.crash(error, inspecting);
        let ghost t = tail@;
        out.append(&mut tail);
        assert(out@ == before + t);
        assert(kinds(out@) =~= kinds(before) + kinds(t));
        out
    }

    /// A crash: pending work is cancelled first, then the crash is recorded.
    fn crash(&mut self, error: SessionError, inspecting: bool) -> (r: Vec<ActorAction>)
        ensures
            final(self)@.phase is Ended,
            final(self)@.session_id == old(self)@.session_id,
            final(self)@.stale_environment == old(self)@.stale_environment,
            r@ == crash_actions(error, inspecting),
            kinds(r@) == if inspecting {
                seq![
                    ActionKind::ReplyInspectionUnavailable,
                    ActionKind::CancelPendingWork,
                    ActionKind::RecordCrash,
                ]
            } else {
                seq![ActionKind::CancelPendingWork, ActionKind::RecordCrash]
            },
    {
        self.phase = ActorPhase::Ended;
        let mut out: Vec<ActorAction> = Vec::new();
        if inspecting {
            out.push(ActorAction::ReplyInspectionUnavailable);
        }
        out.push(ActorAction::CancelPendingWork);
        out.push(ActorAction::RecordCrash(error));
        proof {
            if inspecting {
                assert(kinds(out@) =~= seq![
                    ActionKind::ReplyInspectionUnavailable,
                    ActionKind::CancelPendingWork,
                    ActionKind::RecordCrash,
                ]);
            } else {
                assert(kinds(out@) =~= seq![ActionKind::CancelPendingWork, ActionKind::RecordCrash]);
            }
        }
        out
    }

    /// A health observation.
    ///
    /// Idle: an exit is recorded as an exit, a failed poll or a silent worker
    /// (at least `heartbeat_timeout_ms`) as a crash, after cancelling pending
    /// work. Executing or inspecting: an exit, a failed poll or a silent worker
    /// is a crash (an inspection is first answered as unavailable).
    pub fn on_health(&mut self, observation: HealthObservation, heartbeat_timeout_ms: u64) -> (r: Vec<
        ActorAction,
    >)
        requires
            !(old(self)@.phase is Ended),
        ensures
            final(self)@.session_id == old(self)@.session_id,
            final(self)@.stale_environment == old(self)@.stale_environment,
            match observation {
                HealthObservation::Running { silent_ms } => if silent_ms < heartbeat_timeout_ms {
                    r@.len() == 0 && final(self)@ == old(self)@
                } else {
                    final(self)@.phase is Ended && kinds(r@).last() == ActionKind::RecordCrash
                },
                HealthObservation::Exited(_) => final(self)@.phase is Ended && kinds(r@).last() == (
                if old(self)@.phase is Idle {
                    ActionKind::RecordExit
                } else {
                    ActionKind::RecordCrash
                }),
                HealthObservation::PollFailed(_) => final(self)@.phase is Ended && kinds(r@).last()
                    == ActionKind::RecordCrash,
            },
            match observation {
                HealthObservation::Running { silent_ms } => silent_ms >= heartbeat_timeout_ms ==> r@
                    == crash_actions(
                    SessionError::WorkerHeartbeatTimeout(heartbeat_timeout_ms),
                    old(self)@.phase is Inspecting,
                ),
                HealthObservation::Exited(exit) => if old(self)@.phase is Idle {
                    r@ == seq![ActorAction::CancelPendingWork, ActorAction::RecordExit(exit)]
                } else {
                    &&& kinds(r@) == crash_kinds(old(self)@.phase is Inspecting)
                    &&& r@.last() matches ActorAction::RecordCrash(SessionError::WorkerExited(d))
                    &&& d@ == exit_text(exit)
                },
                HealthObservation::PollFailed(m) => r@ == crash_actions(
                    SessionError::Io(m),
                    old(self)@.phase is Inspecting,
                ),
            },
    {
        let idle = self.is_idle();
        let inspecting = match self.phase {
            ActorPhase::Inspecting { .. } => true,
            _ => false,
        };
        match observation {
            HealthObservation::Running { silent_ms } => {
                if silent_ms < heartbeat_timeout_ms {
                    Vec::new()
                } else {
                    self.crash(SessionError::WorkerHeartbeatTimeout(heartbeat_timeout_ms), inspecting)
                }
            },
            HealthObservation::Exited(exit) => {
                if idle {
                    self.phase = ActorPhase::Ended;
                    let mut out: Vec<ActorAction> = Vec::new();
                    out.push(ActorAction::CancelPendingWork);
                    out.push(ActorAction::RecordExit(exit));
                    assert(kinds(out@) =~= seq![ActionKind::CancelPendingWork, ActionKind::RecordExit]);
                    out
                } else {
                    let description = exit_description(&exit);
                    self.crash(SessionError::WorkerExited(description), inspecting)
                }
            },
            HealthObservation::PollFailed(message) => self.crash(SessionError::Io(message), inspecting),
        }
    }

    /// A frame (or the end of the frame stream) from the worker.
    ///
    /// The frame must belong to the Session and fit its phase (and, while
    /// executing, the execute lifecycle); otherwise the Session crashes. An
    /// accepted frame restarts the heartbeat clock, leaves its evidence and,
    /// outside inspections, is published. While executing, the response ends
    /// the operation with `completion_status` and returns the Session to its
    /// resting state. While inspecting, the response answers the inspection
    /// (a successful one with its result, a failed one with the worker's
    /// error); a response without the result or error that its `ok` calls for
    /// is a protocol violation.
    pub fn on_worker_frame(&mut self, inbound: Option<Result<WorkerFrame, SessionError>>) -> (r: Vec<
        ActorAction,
    >)
        requires
            !(old(self)@.phase is Ended),
        ensures
            final(self)@.session_id == old(self)@.session_id,
            final(self)@.stale_environment == old(self)@.stale_environment,
            match inbound {
                Some(Ok(frame)) => {
                    let accepted = frame_identity_ok(old(self)@.session_id, frame) && match old(self)@.phase {
                        PhaseView::Idle => idle_transaction_ok(frame),
                        PhaseView::Executing { request_id, lifecycle, .. } => {
                            &&& execute_transaction_ok(request_id, frame)
                            &&& lifecycle_step(lifecycle, frame) is Some
                        },
                        PhaseView::Inspecting { request_id } => inspection_transaction_ok(
                            request_id,
                            frame,
                        ),
                        PhaseView::Ended => false,
                    };
                    &&& !accepted ==> final(self)@.phase is Ended && kinds(r@).last()
                        == ActionKind::RecordCrash
                    &&& accepted ==> kinds(r@).len() > 0 && kinds(r@)[0] == ActionKind::MarkActivity
                    &&& accepted ==> match (old(self)@.phase, frame) {
                        (
                            PhaseView::Executing { operation_id, interrupted, .. },
                            WorkerFrame::Response { ok, result, .. },
                        ) => {
                            &&& kinds(r@).contains(
                                ActionKind::FinishOperation(
                                    operation_id,
                                    completion_status(interrupted, ok, result),
                                ),
                            )
                            &&& kinds(r@).last() == ActionKind::SetState(
                                resting_state(old(self)@.stale_environment),
                            )
                            &&& final(self)@.state == resting_state(old(self)@.stale_environment)
                            &&& final(self)@.phase is Idle
                        },
                        _ => true,
                    }
                    &&& accepted ==> match (old(self)@.phase, frame) {
                        (PhaseView::Idle, _) => final(self)@ == old(self)@ && kinds(r@).last()
                            == ActionKind::PublishFrame,
                        (
                            PhaseView::Executing { operation_id, request_id, interrupted, lifecycle },
                            WorkerFrame::Event { .. },
                        ) => final(self)@.phase == (PhaseView::Executing {
                            operation_id,
                            request_id,
                            interrupted,
                            lifecycle: lifecycle_step(lifecycle, frame)->0,
                        }) && final(self)@.state == old(self)@.state && kinds(r@).last()
                            == ActionKind::PublishFrame,
                        (PhaseView::Inspecting { .. }, WorkerFrame::Response { ok, result, error, .. }) => {
                            if (ok && error is None && result is Some) || (!ok && result is None
                                && error is Some) {
                                &&& final(self)@.phase is Idle
                                &&& final(self)@.state == old(self)@.state
                                &&& kinds(r@).last() == ActionKind::ReplyInspection
                                &&& ok ==> (r@.last() matches ActorAction::ReplyInspection(Ok(v))
                                    && Some(v) == result)
                                &&& !ok ==> (r@.last() matches ActorAction::ReplyInspection(Err(e))
                                    && e is WorkerRequest)
                            } else {
                                final(self)@.phase is Ended && kinds(r@).last()
                                    == ActionKind::RecordCrash
                            }
                        },
                        (PhaseView::Inspecting { .. }, _) => final(self)@ == old(self)@,
                        _ => true,
                    }
                },
                _ => final(self)@.phase is Ended && kinds(r@).last() == ActionKind::RecordCrash,
            },
            match inbound {
                None => r@ == crash_actions(SessionError::WorkerDisconnected, old(self)@.phase is Inspecting),
                Some(Err(e)) => r@ == crash_actions(e, old(self)@.phase is Inspecting),
                Some(Ok(frame)) => frame_actions(old(self)@, frame, r@),
            },
    {
        let inspecting = match self.phase {
            ActorPhase::Inspecting { .. } => true,
            _ => false,
        };
        let frame = match inbound {
            None => {
                return self.crash(SessionError::WorkerDisconnected, inspecting);
            },
            Some(Err(error)) => {
                return self.crash(error, inspecting);
            },
            Some(Ok(frame)) => frame,
        };
        if let Err(error) = validate_worker_frame_identity(self.session_id, &frame) {
            return self.crash(SessionError::WorkerTransport(error), inspecting);
        }
        let ghost old_view = self@;
        let mut out: Vec<ActorAction> = Vec::new();
        match &mut self.phase {
            ActorPhase::Idle => {
                if let Err(error) = validate_worker_frame_transaction(
                    WorkerFrameExpectation::Idle,
                    &frame,
                ) {
                    return self.crash(SessionError::WorkerTransport(error), false);
                }
                out.push(ActorAction::MarkActivity);
                match session_evidence_from_worker_frame(&frame) {
                    Some((kind, operation_id, detail)) => out.push(
                        ActorAction::RecordEvidence { kind, operation_id, detail },
                    ),
                    None => {},
                }
                out.push(ActorAction::PublishFrame(frame));
                proof {
                    assert(kinds(out@)[0] == ActionKind::MarkActivity);
                }
                out
            },
            ActorPhase::Executing { operation_id, request_id, interrupted, lifecycle } => {
                let expectation = WorkerFrameExpectation::Execute(request_id.as_str());
                if let Err(error) = validate_worker_frame_transaction(expectation, &frame) {
                    return self.crash(SessionError::WorkerTransport(error), false);
                }
                if let Err(error) = validate_execute_lifecycle(lifecycle, &frame) {
                    return self.crash(SessionError::WorkerTransport(error), false);
                }
                out.push(ActorAction::MarkActivity);
                match session_evidence_from_worker_frame(&frame) {
                    Some((kind, operation_id, detail)) => out.push(
                        ActorAction::RecordEvidence { kind, operation_id, detail },
                    ),
                    None => {},
                }
                let completion: Option<OperationStatus> = match &frame {
                    WorkerFrame::Response { ok, result, .. } => {
                        let succeeded = *ok && match result {
                            Some(r) => match r.get_str("status") {
                                Some(s) => str_eq(s, STATUS_SUCCEEDED),
                                None => false,
                            },
                            None => false,
                        };
                        Some(
                            if *interrupted {
                                OperationStatus::Interrupted
                            } else if succeeded {
                                OperationStatus::Succeeded
                            } else {
                                OperationStatus::Failed
                            },
                        )
                    },
                    _ => None,
                };
                let op = *operation_id;
                out.push(ActorAction::PublishFrame(frame));
                match completion {
                    Some(status) => {
                        out.push(ActorAction::FinishOperation { operation_id: op, status });
                        let next = if self.stale_environment {
                            SessionState::StaleEnvironment
                        } else {
                            SessionState::Idle
                        };
                        self.state = next;
                        self.phase = ActorPhase::Idle;
                        out.push(ActorAction::SetState(next));
                        proof {
                            assert(kinds(out@).contains(
                                ActionKind::FinishOperation(op, status),
                            )) by {
                                assert(kinds(out@)[kinds(out@).len() - 2] == ActionKind::FinishOperation(
                                    op,
                                    status,
                                ));
                            }
                        }
                    },
                    None => {},
                }
                proof {
                    assert(kinds(out@)[0] == ActionKind::MarkActivity);
                }
                out
            },
            ActorPhase::Inspecting { request_id } => {
                let expectation = WorkerFrameExpectation::Inspection(request_id.as_str());
                if let Err(error) = validate_worker_frame_transaction(expectation, &frame) {
                    return self.crash(SessionError::WorkerTransport(error), true);
                }
                out.push(ActorAction::MarkActivity);
                match session_evidence_from_worker_frame(&frame) {
                    Some((kind, operation_id, detail)) => out.push(
                        ActorAction::RecordEvidence { kind, operation_id, detail },
                    ),
                    None => {},
                }
                match frame {
                    WorkerFrame::Response { ok, result, error, .. } => {
                        let message = if ok && error.is_some() {
                            Some("successful inspection response included an error")
                        } else if ok && result.is_none() {
                            Some("successful inspection response omitted result")
                        } else if !ok && result.is_some() {
                            Some("failed inspection response included a result")
                        } else if !ok && error.is_none() {
                            Some("failed inspection response omitted error")
                        } else {
                            None
                        };
                        match message {
                            Some(m) => {
                                let ghost o = out@;
                                let failure = SessionError::WorkerTransport(violation(m));
                                let ghost g = failure;
                                let r = self.crash_after(out, failure, true);
                                proof {
                                    assert(r@.skip(o.len() as int) =~= crash_actions(g, true));
                                    assert(kinds(crash_actions(g, true)) =~= crash_kinds(true));
                                }
                                return r;
                            },
                            None => {},
                        }
                        if ok {
                            out.push(ActorAction::ReplyInspection(Ok(result.unwrap())));
                        } else {
                            match error {
                                Some(WorkerError { code, summary, .. }) => {
                                    out.push(
                                        ActorAction::ReplyInspection(
                                            Err(SessionInspectionError::WorkerRequest { code, summary }),
                                        ),
                                    );
                                },
                                None => {},
                            }
                        }
                        self.phase = ActorPhase::Idle;
                    },
                    _ => {},
                }
                proof {
                    assert(kinds(out@)[0] == ActionKind::MarkActivity);
                }
                out
            },
            ActorPhase::Ended => out,
        }
    }
}

/// How an execution ends on the worker's terminal response: an execution that
/// was interrupted finishes as interrupted; otherwise it succeeds exactly when
/// the response is `ok` and its result's `status` member is `SUCCEEDED`, and
/// fails in every other case (a failed response, no result, or any other
/// status such as `FAILED`).
pub proof fn lemma_execution_outcome(v: ActorView, frame: WorkerFrame, r: Seq<ActorAction>)
    requires
        frame_actions(v, frame, r),
        frame_accepted(v, frame),
        v.phase is Executing,
        frame is Response,
    ensures
        match (v.phase, frame) {
            (PhaseView::Executing { operation_id, interrupted, .. }, WorkerFrame::Response { ok, result, .. }) => {
                let n = evidence_count(frame);
                &&& r.len() == n + 4
                &&& interrupted ==> r[n + 2] == (ActorAction::FinishOperation {
                    operation_id,
                    status: OperationStatus::Interrupted,
                })
                &&& !interrupted && ok && (result matches Some(j) && j.field_str("status"@) == Some("SUCCEEDED"@))
                    ==> r[n + 2] == (ActorAction::FinishOperation { operation_id, status: OperationStatus::Succeeded })
                &&& !interrupted && !ok ==> r[n + 2] == (ActorAction::FinishOperation {
                    operation_id,
                    status: OperationStatus::Failed,
                })
                &&& !interrupted && result is None ==> r[n + 2] == (ActorAction::FinishOperation {
                    operation_id,
                    status: OperationStatus::Failed,
                })
                &&& !interrupted && (result matches Some(j) && j.field_str("status"@) != Some("SUCCEEDED"@))
                    ==> r[n + 2] == (ActorAction::FinishOperation { operation_id, status: OperationStatus::Failed })
            },
            _ => true,
        },
{
    reveal_strlit("SUCCEEDED");
    assert(STATUS_SUCCEEDED@ == "SUCCEEDED"@);
}

} // verus!
