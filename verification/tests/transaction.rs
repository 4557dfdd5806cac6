use cokernel::domain::{OperationId, SessionId};
use cokernel::json::{JsonNumber, JsonValue};
use cokernel::protocol::worker::{event, WorkerFrame, WORKER_PROTOCOL_V1};
use cokernel::session::transaction::{
    validate_execute_lifecycle, validate_worker_frame_identity, validate_worker_frame_transaction, ExecuteLifecycle,
    WorkerFrameExpectation,
};

fn s(v: &str) -> JsonValue {
    JsonValue::String(v.to_string())
}

fn n(v: u64) -> JsonValue {
    JsonValue::Number(JsonNumber::PosInt(v))
}

fn obj(entries: Vec<(&str, JsonValue)>) -> JsonValue {
    JsonValue::Object(entries.into_iter().map(|(k, v)| (k.to_string(), v)).collect())
}

fn heartbeat(session_id: SessionId) -> WorkerFrame {
    WorkerFrame::Event {
        protocol: WORKER_PROTOCOL_V1,
        session_id: session_id.to_string(),
        event: event::HEARTBEAT.into(),
        payload: obj(vec![("monotonic_ns", n(1))]),
    }
}

fn execute_event(session_id: SessionId, operation_id: &str) -> WorkerFrame {
    WorkerFrame::Event {
        protocol: WORKER_PROTOCOL_V1,
        session_id: session_id.to_string(),
        event: event::STDOUT.into(),
        payload: obj(vec![("operation_id", s(operation_id)), ("sequence", n(1)), ("text", s("ok"))]),
    }
}

fn response(session_id: SessionId, request_id: &str) -> WorkerFrame {
    WorkerFrame::Response {
        protocol: WORKER_PROTOCOL_V1,
        id: request_id.into(),
        session_id: session_id.to_string(),
        ok: true,
        result: Some(obj(vec![("status", s("SUCCEEDED"))])),
        error: None,
    }
}

fn lifecycle_event(
    session_id: SessionId,
    operation_id: &str,
    name: &str,
    mut entries: Vec<(&str, JsonValue)>,
) -> WorkerFrame {
    entries.push(("operation_id", s(operation_id)));
    WorkerFrame::Event {
        protocol: WORKER_PROTOCOL_V1,
        session_id: session_id.to_string(),
        event: name.into(),
        payload: obj(entries),
    }
}

fn lifecycle_response(
    session_id: SessionId,
    operation_id: &str,
    status: &str,
    execution_count: u64,
    output_truncated: bool,
    output_omitted_bytes: u64,
) -> WorkerFrame {
    WorkerFrame::Response {
        protocol: WORKER_PROTOCOL_V1,
        id: operation_id.into(),
        session_id: session_id.to_string(),
        ok: true,
        result: Some(obj(vec![
            ("operation_id", s(operation_id)),
            ("status", s(status)),
            ("execution_count", n(execution_count)),
            ("output_truncated", JsonValue::Bool(output_truncated)),
            ("output_omitted_bytes", n(output_omitted_bytes)),
        ])),
        error: None,
    }
}

fn finished(status: &str, execution_count: u64, output_count: u64) -> Vec<(&'static str, JsonValue)> {
    vec![
        ("status", s(status)),
        ("execution_count", n(execution_count)),
        ("output_count", n(output_count)),
        ("output_truncated", JsonValue::Bool(false)),
        ("output_omitted_bytes", n(0)),
        ("output_truncation_reasons", JsonValue::Array(vec![])),
    ]
}

#[test]
fn idle_accepts_only_background_worker_events() {
    let session_id = SessionId::new();
    assert!(validate_worker_frame_transaction(WorkerFrameExpectation::Idle, &heartbeat(session_id))
        .is_ok());

    let stale = response(session_id, "stale-request");
    assert!(validate_worker_frame_transaction(WorkerFrameExpectation::Idle, &stale).is_err());
}

#[test]
fn execute_frames_must_match_active_operation() {
    let session_id = SessionId::new();
    let active = OperationId::new().to_string();
    let other = OperationId::new().to_string();

    assert!(validate_worker_frame_transaction(
        WorkerFrameExpectation::Execute(&active),
        &execute_event(session_id, &active),
    )
    .is_ok());
    assert!(validate_worker_frame_transaction(
        WorkerFrameExpectation::Execute(&active),
        &response(session_id, &active),
    )
    .is_ok());
    assert!(validate_worker_frame_transaction(
        WorkerFrameExpectation::Execute(&active),
        &execute_event(session_id, &other),
    )
    .is_err());
    assert!(validate_worker_frame_transaction(
        WorkerFrameExpectation::Execute(&active),
        &response(session_id, &other),
    )
    .is_err());
}

#[test]
fn inspection_accepts_only_matching_response_or_background_events() {
    let session_id = SessionId::new();
    let active = "inspect-active";

    assert!(validate_worker_frame_transaction(
        WorkerFrameExpectation::Inspection(active),
        &heartbeat(session_id),
    )
    .is_ok());
    assert!(validate_worker_frame_transaction(
        WorkerFrameExpectation::Inspection(active),
        &response(session_id, active),
    )
    .is_ok());
    assert!(validate_worker_frame_transaction(
        WorkerFrameExpectation::Inspection(active),
        &response(session_id, "inspect-stale"),
    )
    .is_err());
    assert!(validate_worker_frame_transaction(
        WorkerFrameExpectation::Inspection(active),
        &execute_event(session_id, active),
    )
    .is_err());
}

#[test]
fn execute_lifecycle_requires_ordered_outputs_and_matching_terminal_response() {
    let session_id = SessionId::new();
    let operation_id = OperationId::new().to_string();
    let mut lifecycle = ExecuteLifecycle::new();

    let started = lifecycle_event(session_id, &operation_id, event::EXECUTION_STARTED, vec![]);
    assert!(validate_execute_lifecycle(&mut lifecycle, &started).is_ok());

    for sequence in 1..=2 {
        let output = lifecycle_event(
            session_id,
            &operation_id,
            event::STDOUT,
            vec![("sequence", n(sequence)), ("text", s("ok"))],
        );
        assert!(validate_execute_lifecycle(&mut lifecycle, &output).is_ok());
    }

    let finished_frame = lifecycle_event(
        session_id,
        &operation_id,
        event::EXECUTION_FINISHED,
        finished("SUCCEEDED", 7, 2),
    );
    assert!(validate_execute_lifecycle(&mut lifecycle, &finished_frame).is_ok());

    let response = lifecycle_response(session_id, &operation_id, "SUCCEEDED", 7, false, 0);
    assert!(validate_execute_lifecycle(&mut lifecycle, &response).is_ok());
}

#[test]
fn execute_lifecycle_rejects_output_before_start_sequence_gaps_and_bad_output_count() {
    let session_id = SessionId::new();
    let operation_id = OperationId::new().to_string();
    let output = lifecycle_event(
        session_id,
        &operation_id,
        event::STDOUT,
        vec![("sequence", n(1)), ("text", s("early"))],
    );
    assert!(validate_execute_lifecycle(&mut ExecuteLifecycle::new(), &output).is_err());

    let mut lifecycle = ExecuteLifecycle::new();
    let started = lifecycle_event(session_id, &operation_id, event::EXECUTION_STARTED, vec![]);
    validate_execute_lifecycle(&mut lifecycle, &started).unwrap();
    let gap = lifecycle_event(
        session_id,
        &operation_id,
        event::STDOUT,
        vec![("sequence", n(2)), ("text", s("gap"))],
    );
    assert!(validate_execute_lifecycle(&mut lifecycle, &gap).is_err());

    let mut lifecycle = ExecuteLifecycle::new();
    validate_execute_lifecycle(&mut lifecycle, &started).unwrap();
    let output = lifecycle_event(
        session_id,
        &operation_id,
        event::STDOUT,
        vec![("sequence", n(1)), ("text", s("ok"))],
    );
    validate_execute_lifecycle(&mut lifecycle, &output).unwrap();
    let bad_finished = lifecycle_event(
        session_id,
        &operation_id,
        event::EXECUTION_FINISHED,
        finished("SUCCEEDED", 1, 0),
    );
    assert!(validate_execute_lifecycle(&mut lifecycle, &bad_finished).is_err());
}

#[test]
fn execute_lifecycle_rejects_response_before_finished_and_terminal_mismatch() {
    let session_id = SessionId::new();
    let operation_id = OperationId::new().to_string();
    let started = lifecycle_event(session_id, &operation_id, event::EXECUTION_STARTED, vec![]);
    let mut lifecycle = ExecuteLifecycle::new();
    validate_execute_lifecycle(&mut lifecycle, &started).unwrap();
    let response = lifecycle_response(session_id, &operation_id, "SUCCEEDED", 1, false, 0);
    assert!(validate_execute_lifecycle(&mut lifecycle, &response).is_err());

    let finished_frame = lifecycle_event(
        session_id,
        &operation_id,
        event::EXECUTION_FINISHED,
        finished("FAILED", 1, 0),
    );
    validate_execute_lifecycle(&mut lifecycle, &finished_frame).unwrap();
    assert!(validate_execute_lifecycle(&mut lifecycle, &response).is_err());
}

#[test]
fn rejected_frame_leaves_the_lifecycle_unchanged() {
    let session_id = SessionId::new();
    let operation_id = OperationId::new().to_string();
    let mut lifecycle = ExecuteLifecycle::new();
    let started = lifecycle_event(session_id, &operation_id, event::EXECUTION_STARTED, vec![]);
    validate_execute_lifecycle(&mut lifecycle, &started).unwrap();
    let gap = lifecycle_event(
        session_id,
        &operation_id,
        event::STDOUT,
        vec![("sequence", n(3)), ("text", s("gap"))],
    );
    assert!(validate_execute_lifecycle(&mut lifecycle, &gap).is_err());
    assert!(lifecycle.started);
    assert_eq!(lifecycle.next_sequence, 1);
    let output = lifecycle_event(
        session_id,
        &operation_id,
        event::STDOUT,
        vec![("sequence", n(1)), ("text", s("ok"))],
    );
    assert!(validate_execute_lifecycle(&mut lifecycle, &output).is_ok());
    assert_eq!(lifecycle.next_sequence, 2);
}

fn refusal(result: Result<(), cokernel::worker::WorkerTransportError>) -> String {
    match result {
        Err(cokernel::worker::WorkerTransportError::Protocol(m)) => m,
        other => panic!("unexpected outcome {other:?}"),
    }
}

#[test]
fn transaction_refusals_quote_the_ids_involved() {
    let session_id = SessionId::new();
    assert_eq!(
        refusal(validate_worker_frame_transaction(WorkerFrameExpectation::Execute("op-1"), &response(session_id, "op-2"))),
        "worker response id \"op-2\" does not match active execute request \"op-1\""
    );
    assert_eq!(
        refusal(validate_worker_frame_transaction(WorkerFrameExpectation::Inspection("i-1"), &response(session_id, "i-2"))),
        "worker response id \"i-2\" does not match active inspection request \"i-1\""
    );
    assert_eq!(
        refusal(validate_worker_frame_transaction(WorkerFrameExpectation::Execute("op-1"), &execute_event(session_id, "op-9"))),
        "worker execute event operation_id \"op-9\" does not match active request \"op-1\""
    );
    assert_eq!(
        refusal(validate_worker_frame_transaction(WorkerFrameExpectation::Idle, &response(session_id, "late"))),
        "worker sent transaction frame while Session was idle: response id=\"late\" ok=true"
    );
    let mut lifecycle = ExecuteLifecycle::new();
    assert_eq!(
        refusal(validate_execute_lifecycle(&mut lifecycle, &execute_event(session_id, "op-1"))),
        "worker emitted execute output \"stdout\" before execution_started"
    );
}

#[test]
fn frames_of_another_session_or_protocol_are_named_in_the_refusal() {
    let session_id = SessionId::new();
    let other = SessionId::new();
    assert_eq!(
        refusal(validate_worker_frame_identity(session_id, &heartbeat(other))),
        format!("worker frame session_id {} does not match expected {}", other.to_string(), session_id.to_string())
    );
    let old_protocol = WorkerFrame::Event {
        protocol: 2,
        session_id: session_id.to_string(),
        event: event::HEARTBEAT.into(),
        payload: obj(vec![("monotonic_ns", n(1))]),
    };
    assert_eq!(
        refusal(validate_worker_frame_identity(session_id, &old_protocol)),
        "worker frame protocol 2 does not match expected 1"
    );
    assert!(validate_worker_frame_identity(session_id, &heartbeat(session_id)).is_ok());
}
