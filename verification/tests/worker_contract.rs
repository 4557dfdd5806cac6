use cokernel::domain::SessionId;
use cokernel::json::{JsonNumber, JsonValue};
use cokernel::protocol::worker::{event, method, WorkerError, WorkerFrame, WORKER_PROTOCOL_V1};
use cokernel::worker::{uv_worker_args, validate_worker_inbound_frame, WorkerTransportError};

fn s(v: &str) -> JsonValue {
    JsonValue::String(v.to_string())
}

fn n(v: u64) -> JsonValue {
    JsonValue::Number(JsonNumber::PosInt(v))
}

fn obj(entries: Vec<(&str, JsonValue)>) -> JsonValue {
    JsonValue::Object(entries.into_iter().map(|(k, v)| (k.to_string(), v)).collect())
}

fn event_frame(session_id: &str, name: &str, payload: JsonValue) -> WorkerFrame {
    WorkerFrame::Event {
        protocol: WORKER_PROTOCOL_V1,
        session_id: session_id.to_string(),
        event: name.to_string(),
        payload,
    }
}

#[test]
fn worker_cannot_send_runtime_request_frames() {
    let frame = WorkerFrame::Request {
        protocol: WORKER_PROTOCOL_V1,
        id: "req-1".into(),
        session_id: SessionId::new().to_string(),
        method: method::PING.into(),
        payload: obj(vec![]),
    };
    assert!(matches!(
        validate_worker_inbound_frame(&frame),
        Err(WorkerTransportError::Protocol(message))
            if message.contains("must not send request frames")
    ));
}

#[test]
fn worker_response_envelope_is_unambiguous_and_correlated() {
    let session_id = SessionId::new().to_string();
    let successful = WorkerFrame::Response {
        protocol: WORKER_PROTOCOL_V1,
        id: "ok".into(),
        session_id: session_id.clone(),
        ok: true,
        result: Some(obj(vec![("pong", JsonValue::Bool(true))])),
        error: None,
    };
    assert!(validate_worker_inbound_frame(&successful).is_ok());

    let blank_id = WorkerFrame::Response {
        protocol: WORKER_PROTOCOL_V1,
        id: "".into(),
        session_id: session_id.clone(),
        ok: true,
        result: Some(obj(vec![])),
        error: None,
    };
    assert!(validate_worker_inbound_frame(&blank_id).is_err());

    let success_with_error = WorkerFrame::Response {
        protocol: WORKER_PROTOCOL_V1,
        id: "bad-success".into(),
        session_id: session_id.clone(),
        ok: true,
        result: Some(obj(vec![])),
        error: Some(WorkerError {
            code: "CK-TEST".into(),
            summary: "unexpected".into(),
            error_type: None,
        }),
    };
    assert!(validate_worker_inbound_frame(&success_with_error).is_err());

    let failed_without_error = WorkerFrame::Response {
        protocol: WORKER_PROTOCOL_V1,
        id: "bad-failure".into(),
        session_id,
        ok: false,
        result: None,
        error: None,
    };
    assert!(validate_worker_inbound_frame(&failed_without_error).is_err());
}

#[test]
fn worker_events_require_liveness_and_operation_correlation_fields() {
    let session_id = SessionId::new().to_string();
    let heartbeat = event_frame(&session_id, event::HEARTBEAT, obj(vec![("monotonic_ns", n(1))]));
    assert!(validate_worker_inbound_frame(&heartbeat).is_ok());

    let malformed_heartbeat = event_frame(&session_id, event::HEARTBEAT, obj(vec![]));
    assert!(validate_worker_inbound_frame(&malformed_heartbeat).is_err());

    let stdout_missing_operation = event_frame(
        &session_id,
        event::STDOUT,
        obj(vec![("sequence", n(1)), ("text", s("hello"))]),
    );
    assert!(validate_worker_inbound_frame(&stdout_missing_operation).is_err());

    let stdout_zero_sequence = event_frame(
        &session_id,
        event::STDOUT,
        obj(vec![("operation_id", s("op-1")), ("sequence", n(0)), ("text", s("hello"))]),
    );
    assert!(validate_worker_inbound_frame(&stdout_zero_sequence).is_err());

    let unknown = event_frame(&session_id, "future-or-corrupt-event", obj(vec![]));
    assert!(validate_worker_inbound_frame(&unknown).is_err());

    let scalar_payload = event_frame(&session_id, event::HEARTBEAT, n(1));
    assert!(validate_worker_inbound_frame(&scalar_payload).is_err());
}

#[test]
fn worker_execution_finished_contract_is_strict() {
    let session_id = SessionId::new().to_string();
    let valid = event_frame(
        &session_id,
        event::EXECUTION_FINISHED,
        obj(vec![
            ("operation_id", s("op-1")),
            ("status", s("FAILED")),
            ("execution_count", n(1)),
            ("output_count", n(2)),
            ("output_truncated", JsonValue::Bool(true)),
            ("output_omitted_bytes", n(10)),
            ("output_truncation_reasons", JsonValue::Array(vec![s("invalid_json")])),
        ]),
    );
    assert!(validate_worker_inbound_frame(&valid).is_ok());

    let invalid_status = event_frame(
        &session_id,
        event::EXECUTION_FINISHED,
        obj(vec![
            ("operation_id", s("op-1")),
            ("status", s("MAYBE")),
            ("output_count", n(0)),
            ("output_truncated", JsonValue::Bool(false)),
            ("output_omitted_bytes", n(0)),
            ("output_truncation_reasons", JsonValue::Array(vec![])),
        ]),
    );
    assert!(validate_worker_inbound_frame(&invalid_status).is_err());
}

#[test]
fn worker_command_runs_inside_project_with_editable_worker() {
    let session_id = SessionId::new();
    let args = uv_worker_args("/projects/demo", "/opt/worker", "/run/s.sock", session_id);
    let expected = vec![
        "run".to_string(),
        "--project".into(),
        "/projects/demo".into(),
        "--with-editable".into(),
        "/opt/worker".into(),
        "--".into(),
        "cokernel-worker".into(),
        "--socket".into(),
        "/run/s.sock".into(),
        "--session-id".into(),
        session_id.to_string(),
    ];
    assert_eq!(args, expected);
}

#[test]
fn correlation_ids_are_bounded_and_nonempty() {
    let session_id = SessionId::new().to_string();
    let long_id = "x".repeat(cokernel::worker::MAX_WORKER_CORRELATION_ID_CHARS + 1);
    let response = WorkerFrame::Response {
        protocol: WORKER_PROTOCOL_V1,
        id: long_id,
        session_id: session_id.clone(),
        ok: true,
        result: Some(obj(vec![])),
        error: None,
    };
    assert!(validate_worker_inbound_frame(&response).is_err());
    let fits = WorkerFrame::Response {
        protocol: WORKER_PROTOCOL_V1,
        id: "y".repeat(cokernel::worker::MAX_WORKER_CORRELATION_ID_CHARS),
        session_id,
        ok: false,
        result: None,
        error: Some(WorkerError { code: "CK-X".into(), summary: "failed".into(), error_type: None }),
    };
    assert!(validate_worker_inbound_frame(&fits).is_ok());
}

#[test]
fn inbound_refusals_name_what_is_wrong() {
    let session_id = SessionId::new().to_string();
    let message = |frame: &WorkerFrame| match validate_worker_inbound_frame(frame) {
        Err(WorkerTransportError::Protocol(m)) => m,
        other => panic!("unexpected outcome {other:?}"),
    };
    let request = WorkerFrame::Request {
        protocol: WORKER_PROTOCOL_V1,
        id: "req-1".into(),
        session_id: session_id.clone(),
        method: method::PING.into(),
        payload: obj(vec![]),
    };
    assert_eq!(message(&request), "worker must not send request frames to the Runtime");
    let blank_id = WorkerFrame::Response {
        protocol: WORKER_PROTOCOL_V1,
        id: "".into(),
        session_id: session_id.clone(),
        ok: true,
        result: Some(obj(vec![])),
        error: None,
    };
    assert_eq!(message(&blank_id), "worker response id must be non-empty");
    let long_id = WorkerFrame::Response {
        protocol: WORKER_PROTOCOL_V1,
        id: "x".repeat(257),
        session_id: session_id.clone(),
        ok: true,
        result: Some(obj(vec![])),
        error: None,
    };
    assert_eq!(message(&long_id), "worker response id exceeds maximum length");
    let failed_with_result = WorkerFrame::Response {
        protocol: WORKER_PROTOCOL_V1,
        id: "r".into(),
        session_id: session_id.clone(),
        ok: false,
        result: Some(obj(vec![])),
        error: None,
    };
    assert_eq!(message(&failed_with_result), "failed worker response included a result");
    let unknown = event_frame(&session_id, "telemetry", obj(vec![]));
    assert_eq!(message(&unknown), "worker sent unknown v1 event \"telemetry\"");
    let not_object = event_frame(&session_id, event::HEARTBEAT, JsonValue::Bool(true));
    assert_eq!(message(&not_object), "worker event \"heartbeat\" payload must be an object");
    let no_text = event_frame(&session_id, event::STDOUT, obj(vec![("operation_id", JsonValue::String("op".into())), ("sequence", n(1))]));
    assert_eq!(message(&no_text), "worker event \"stdout\" requires string field \"text\"");
    let no_sequence = event_frame(&session_id, event::STDOUT, obj(vec![("operation_id", JsonValue::String("op".into()))]));
    assert_eq!(message(&no_sequence), "worker event \"stdout\" requires unsigned integer field \"sequence\"");
}

#[test]
fn payload_refusals_quote_the_event_and_field() {
    let session_id = SessionId::new().to_string();
    let message = |frame: &WorkerFrame| match validate_worker_inbound_frame(frame) {
        Err(WorkerTransportError::Protocol(m)) => m,
        other => panic!("unexpected outcome {other:?}"),
    };
    let zero_beat = event_frame(&session_id, event::HEARTBEAT, obj(vec![("monotonic_ns", n(0))]));
    assert_eq!(message(&zero_beat), "worker heartbeat monotonic_ns must be positive");
    let blank_op = event_frame(&session_id, event::EXECUTION_STARTED, obj(vec![("operation_id", JsonValue::String(String::new()))]));
    assert_eq!(message(&blank_op), "worker event \"execution_started\" requires non-empty string field \"operation_id\"");
    let zero_sequence = event_frame(
        &session_id,
        event::STDERR,
        obj(vec![("operation_id", JsonValue::String("op".into())), ("sequence", n(0)), ("text", JsonValue::String("x".into()))]),
    );
    assert_eq!(message(&zero_sequence), "worker event \"stderr\" sequence must be positive");
}
