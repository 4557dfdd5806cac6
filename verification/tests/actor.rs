use cokernel::domain::{ExecutionOrigin, OperationId, OperationStatus, SessionId, SessionState};
use cokernel::json::{JsonNumber, JsonValue};
use cokernel::protocol::worker::{event, WorkerFrame, WORKER_PROTOCOL_V1};
use cokernel::domain::FailureTrigger;
use cokernel::session::error::{failure_trigger, SessionError};
use cokernel::worker::WorkerTransportError;
use cokernel::session::actor::{
    origin_name, ActorAction, ActorPhase, ControlRequest, ExecuteRequest, ExitInfo,
    HealthObservation, SessionActor,
};

fn s(v: &str) -> JsonValue {
    JsonValue::String(v.to_string())
}

fn n(v: u64) -> JsonValue {
    JsonValue::Number(JsonNumber::PosInt(v))
}

fn obj(entries: Vec<(&str, JsonValue)>) -> JsonValue {
    JsonValue::Object(entries.into_iter().map(|(k, v)| (k.to_string(), v)).collect())
}

fn request(operation_id: OperationId) -> ExecuteRequest {
    ExecuteRequest {
        operation_id,
        origin: ExecutionOrigin::Human,
        cell_id: Some("cell-1".into()),
        source: "1 + 1".into(),
    }
}

fn event_frame(session_id: SessionId, name: &str, entries: Vec<(&str, JsonValue)>) -> WorkerFrame {
    WorkerFrame::Event {
        protocol: WORKER_PROTOCOL_V1,
        session_id: session_id.to_string(),
        event: name.into(),
        payload: obj(entries),
    }
}

fn finished_status(actions: &[ActorAction]) -> Option<OperationStatus> {
    actions.iter().find_map(|a| match a {
        ActorAction::FinishOperation { status, .. } => Some(*status),
        _ => None,
    })
}

#[test]
fn an_execution_runs_to_its_terminal_response() {
    let session_id = SessionId::new();
    let mut actor = SessionActor::new(session_id);
    assert_eq!(actor.state, SessionState::Idle);
    let operation_id = OperationId::new();
    let op = operation_id.to_string();
    let started = actor.begin_execute(request(operation_id));
    assert!(matches!(started[1], ActorAction::SetState(SessionState::Executing)));
    assert!(matches!(started[2], ActorAction::WriteFrame(WorkerFrame::Request { .. })));

    let frames = vec![
        event_frame(session_id, event::EXECUTION_STARTED, vec![("operation_id", s(&op))]),
        event_frame(session_id, event::STDOUT, vec![("operation_id", s(&op)), ("sequence", n(1)), ("text", s("2"))]),
        event_frame(
            session_id,
            event::EXECUTION_FINISHED,
            vec![
                ("operation_id", s(&op)),
                ("status", s("SUCCEEDED")),
                ("execution_count", n(1)),
                ("output_count", n(1)),
                ("output_truncated", JsonValue::Bool(false)),
                ("output_omitted_bytes", n(0)),
                ("output_truncation_reasons", JsonValue::Array(vec![])),
            ],
        ),
    ];
    for frame in frames {
        let actions = actor.on_worker_frame(Some(Ok(frame)));
        assert!(matches!(actions[0], ActorAction::MarkActivity));
        assert!(!actor.is_ended());
    }
    let response = WorkerFrame::Response {
        protocol: WORKER_PROTOCOL_V1,
        id: op.clone(),
        session_id: session_id.to_string(),
        ok: true,
        result: Some(obj(vec![
            ("operation_id", s(&op)),
            ("status", s("SUCCEEDED")),
            ("execution_count", n(1)),
            ("output_truncated", JsonValue::Bool(false)),
            ("output_omitted_bytes", n(0)),
        ])),
        error: None,
    };
    let actions = actor.on_worker_frame(Some(Ok(response)));
    assert_eq!(finished_status(&actions), Some(OperationStatus::Succeeded));
    assert!(actor.is_idle());
    assert_eq!(actor.state, SessionState::Idle);
}

#[test]
fn interrupt_is_sent_once_and_marks_the_operation_interrupted() {
    let session_id = SessionId::new();
    let mut actor = SessionActor::new(session_id);
    actor.begin_execute(request(OperationId::new()));
    let first = actor.on_control(Some(ControlRequest::Interrupt));
    assert!(matches!(first[0], ActorAction::SetState(SessionState::Interrupting)));
    assert!(matches!(first[1], ActorAction::SendSigint));
    let second = actor.on_control(Some(ControlRequest::Interrupt));
    assert!(second.is_empty());
    assert!(matches!(actor.phase, ActorPhase::Executing { interrupted: true, .. }));
}

#[test]
fn stale_mark_waits_for_the_end_of_an_execution() {
    let session_id = SessionId::new();
    let mut idle = SessionActor::new(session_id);
    let actions = idle.on_control(Some(ControlRequest::MarkEnvironmentStale));
    assert!(matches!(actions[0], ActorAction::SetState(SessionState::StaleEnvironment)));

    let mut busy = SessionActor::new(session_id);
    busy.begin_execute(request(OperationId::new()));
    assert!(busy.on_control(Some(ControlRequest::MarkEnvironmentStale)).is_empty());
    assert!(busy.stale_environment);
    assert_eq!(busy.state, SessionState::Executing);
}

#[test]
fn stop_and_closed_control_end_the_session() {
    let session_id = SessionId::new();
    let mut actor = SessionActor::new(session_id);
    let actions = actor.on_control(Some(ControlRequest::Stop));
    assert!(matches!(actions[0], ActorAction::CancelPendingWork));
    assert!(matches!(actions[1], ActorAction::GracefulStop));
    assert!(actor.is_ended());

    let mut busy = SessionActor::new(session_id);
    let operation_id = OperationId::new();
    busy.begin_execute(request(operation_id));
    let actions = busy.on_control(None);
    assert_eq!(finished_status(&actions), Some(OperationStatus::Cancelled));
    assert!(busy.is_ended());
}

#[test]
fn a_silent_or_exited_worker_is_a_failure() {
    let session_id = SessionId::new();
    let mut quiet = SessionActor::new(session_id);
    assert!(quiet.on_health(HealthObservation::Running { silent_ms: 9_999 }, 10_000).is_empty());
    let actions = quiet.on_health(HealthObservation::Running { silent_ms: 10_000 }, 10_000);
    assert!(matches!(actions.last(), Some(ActorAction::RecordCrash(_))));
    assert!(quiet.is_ended());

    let mut exited = SessionActor::new(session_id);
    let actions = exited.on_health(
        HealthObservation::Exited(ExitInfo { code: Some(1), signal: None, fallback: String::new() }),
        10_000,
    );
    assert!(matches!(actions.last(), Some(ActorAction::RecordExit(_))));
}

#[test]
fn a_frame_of_another_session_crashes_the_session() {
    let session_id = SessionId::new();
    let mut actor = SessionActor::new(session_id);
    let foreign = event_frame(SessionId::new(), event::HEARTBEAT, vec![("monotonic_ns", n(1))]);
    let actions = actor.on_worker_frame(Some(Ok(foreign)));
    assert!(matches!(actions.last(), Some(ActorAction::RecordCrash(_))));
    assert!(actor.is_ended());
    assert_eq!(origin_name(ExecutionOrigin::Mcp), "MCP");
}

fn crash_error(actions: &[ActorAction]) -> &SessionError {
    match actions.last() {
        Some(ActorAction::RecordCrash(e)) => e,
        other => panic!("expected a crash, got {other:?}"),
    }
}

#[test]
fn unexpected_idle_transaction_frame_fails_closed_as_worker_protocol_crash() {
    let session_id = SessionId::new();
    let mut actor = SessionActor::new(session_id);
    let stray = event_frame(session_id, event::STDOUT, vec![("operation_id", s("op")), ("sequence", n(1)), ("text", s("x"))]);
    let actions = actor.on_worker_frame(Some(Ok(stray)));
    let error = crash_error(&actions);
    assert!(matches!(error, SessionError::WorkerTransport(WorkerTransportError::Protocol(m))
        if m == "worker sent transaction frame while Session was idle: event \"stdout\""));
    assert_eq!(failure_trigger(error), FailureTrigger::WorkerProtocol);
    assert!(actor.is_ended());
}

#[test]
fn crash_causes_follow_what_was_observed() {
    let session_id = SessionId::new();
    let mut silent = SessionActor::new(session_id);
    let actions = silent.on_health(HealthObservation::Running { silent_ms: 400 }, 350);
    assert!(matches!(crash_error(&actions), SessionError::WorkerHeartbeatTimeout(350)));
    assert_eq!(failure_trigger(crash_error(&actions)), FailureTrigger::HeartbeatTimeout);

    let mut busy = SessionActor::new(session_id);
    busy.begin_execute(request(OperationId::new()));
    let actions = busy.on_health(HealthObservation::Exited(ExitInfo { code: Some(23), signal: None, fallback: String::new() }), 350);
    assert!(matches!(crash_error(&actions), SessionError::WorkerExited(d) if d == "exit code 23"));

    let mut gone = SessionActor::new(session_id);
    let actions = gone.on_worker_frame(None);
    assert!(matches!(crash_error(&actions), SessionError::WorkerDisconnected));
}

#[test]
fn execute_sends_its_request_and_accepted_frames_are_published() {
    let session_id = SessionId::new();
    let mut actor = SessionActor::new(session_id);
    let operation_id = OperationId::new();
    let op = operation_id.to_string();
    let started = actor.begin_execute(request(operation_id));
    match &started[0] {
        ActorAction::SetCurrentOperation { operation_id: o, cell_id } => {
            assert_eq!(*o, operation_id);
            assert_eq!(cell_id.as_deref(), Some("cell-1"));
        }
        other => panic!("unexpected {other:?}"),
    }
    match &started[2] {
        ActorAction::WriteFrame(WorkerFrame::Request { id, method, .. }) => {
            assert_eq!(id, &op);
            assert_eq!(method, "execute");
        }
        other => panic!("unexpected {other:?}"),
    }
    let begun = event_frame(session_id, event::EXECUTION_STARTED, vec![("operation_id", s(&op))]);
    let actions = actor.on_worker_frame(Some(Ok(begun)));
    assert!(matches!(actions[0], ActorAction::MarkActivity));
    assert!(matches!(actions.last(), Some(ActorAction::PublishFrame(WorkerFrame::Event { event, .. })) if event == event::EXECUTION_STARTED));
}
