use cokernel::domain::SessionId;
use cokernel::json::{JsonNumber, JsonValue};
use cokernel::protocol::worker::{event, method, WorkerFrame, WORKER_PROTOCOL_V1};
use cokernel::session::handshake::{
    handshake_read_step, validate_worker_handshake, worker_frame_descriptor, HandshakeRead,
    MAX_WORKER_VERSION_CHARS,
};
use cokernel::worker::WorkerTransportError;

fn s(v: &str) -> JsonValue {
    JsonValue::String(v.to_string())
}

fn n(v: u64) -> JsonValue {
    JsonValue::Number(JsonNumber::PosInt(v))
}

fn obj(entries: Vec<(&str, JsonValue)>) -> JsonValue {
    JsonValue::Object(entries.into_iter().map(|(k, v)| (k.to_string(), v)).collect())
}

fn capabilities(names: &[&str]) -> JsonValue {
    JsonValue::Array(names.iter().map(|c| s(c)).collect())
}

fn limits(event_bytes: u64, operation_bytes: u64, blob_bytes: u64) -> JsonValue {
    obj(vec![
        ("max_event_bytes", n(event_bytes)),
        ("max_operation_bytes", n(operation_bytes)),
        ("max_blob_bytes", n(blob_bytes)),
    ])
}

fn all_capabilities() -> JsonValue {
    capabilities(&[method::EXECUTE, method::INSPECT_VARIABLES, method::GET_VARIABLE, method::RESET, method::SHUTDOWN])
}

fn handshake_with(
    session_id: SessionId,
    request_id: &str,
    heartbeat_interval_ms: u64,
    worker_version: JsonValue,
    caps: JsonValue,
    output_limits: JsonValue,
) -> WorkerFrame {
    WorkerFrame::Response {
        protocol: WORKER_PROTOCOL_V1,
        id: request_id.into(),
        session_id: session_id.to_string(),
        ok: true,
        result: Some(obj(vec![
            ("protocol", n(WORKER_PROTOCOL_V1 as u64)),
            ("worker_version", worker_version),
            ("capabilities", caps),
            ("heartbeat_interval_ms", n(heartbeat_interval_ms)),
            ("output_limits", output_limits),
        ])),
        error: None,
    }
}

fn valid_handshake(session_id: SessionId, request_id: &str, heartbeat_interval_ms: u64) -> WorkerFrame {
    handshake_with(
        session_id,
        request_id,
        heartbeat_interval_ms,
        s("1.0.0a0"),
        all_capabilities(),
        limits(6 * 1024 * 1024, 24 * 1024 * 1024, 4 * 1024 * 1024),
    )
}

#[test]
fn handshake_requires_capabilities_and_consistent_heartbeat() {
    let session_id = SessionId::new();
    let request_id = "handshake-test";
    let valid = valid_handshake(session_id, request_id, 2_000);
    assert!(validate_worker_handshake(&valid, session_id, request_id, 2_000).is_ok());

    let missing_capability = handshake_with(
        session_id,
        request_id,
        2_000,
        s("1.0.0a0"),
        capabilities(&[method::EXECUTE, method::INSPECT_VARIABLES, method::RESET, method::SHUTDOWN]),
        limits(6 * 1024 * 1024, 24 * 1024 * 1024, 4 * 1024 * 1024),
    );
    assert!(validate_worker_handshake(&missing_capability, session_id, request_id, 2_000).is_err());

    let inconsistent_heartbeat = valid_handshake(session_id, request_id, 1_000);
    assert!(validate_worker_handshake(&inconsistent_heartbeat, session_id, request_id, 2_000).is_err());
}

#[test]
fn handshake_rejects_duplicate_capabilities_and_incoherent_output_limits() {
    let session_id = SessionId::new();
    let request_id = "handshake-test";

    let duplicate = handshake_with(
        session_id,
        request_id,
        2_000,
        s("1.0.0a0"),
        capabilities(&[
            method::EXECUTE,
            method::EXECUTE,
            method::INSPECT_VARIABLES,
            method::GET_VARIABLE,
            method::RESET,
            method::SHUTDOWN,
        ]),
        limits(6 * 1024 * 1024, 24 * 1024 * 1024, 4 * 1024 * 1024),
    );
    assert!(validate_worker_handshake(&duplicate, session_id, request_id, 2_000).is_err());

    let incoherent = handshake_with(
        session_id,
        request_id,
        2_000,
        s("1.0.0a0"),
        all_capabilities(),
        limits(1024, 512, 2048),
    );
    assert!(validate_worker_handshake(&incoherent, session_id, request_id, 2_000).is_err());
}

#[test]
fn handshake_rejects_oversized_worker_metadata() {
    let session_id = SessionId::new();
    let request_id = "handshake-test";
    let oversized = handshake_with(
        session_id,
        request_id,
        2_000,
        s(&"v".repeat(MAX_WORKER_VERSION_CHARS + 1)),
        all_capabilities(),
        limits(6 * 1024 * 1024, 24 * 1024 * 1024, 4 * 1024 * 1024),
    );
    assert!(validate_worker_handshake(&oversized, session_id, request_id, 2_000).is_err());
}

#[test]
fn handshake_of_another_session_or_request_is_refused() {
    let session_id = SessionId::new();
    let valid = valid_handshake(session_id, "handshake-test", 2_000);
    assert!(validate_worker_handshake(&valid, SessionId::new(), "handshake-test", 2_000).is_err());
    assert!(validate_worker_handshake(&valid, session_id, "other-request", 2_000).is_err());
    let frame_limit_event = handshake_with(
        session_id,
        "handshake-test",
        2_000,
        s("1.0.0a0"),
        all_capabilities(),
        limits(8 * 1024 * 1024, 24 * 1024 * 1024, 4 * 1024 * 1024),
    );
    assert!(validate_worker_handshake(&frame_limit_event, session_id, "handshake-test", 2_000).is_err());
}

#[test]
fn handshake_reader_skips_heartbeats_and_takes_the_answer() {
    let session_id = SessionId::new();
    let heartbeat = WorkerFrame::Event {
        protocol: WORKER_PROTOCOL_V1,
        session_id: session_id.to_string(),
        event: event::HEARTBEAT.into(),
        payload: obj(vec![("monotonic_ns", n(1))]),
    };
    assert_eq!(handshake_read_step(&heartbeat, session_id, "handshake-test").unwrap(), HandshakeRead::KeepReading);
    let answer = valid_handshake(session_id, "handshake-test", 2_000);
    assert_eq!(handshake_read_step(&answer, session_id, "handshake-test").unwrap(), HandshakeRead::Answer);
}

#[test]
fn handshake_reader_does_not_echo_unexpected_response_payload() {
    let session_id = SessionId::new();
    let unexpected = WorkerFrame::Response {
        protocol: WORKER_PROTOCOL_V1,
        id: "stale-response".into(),
        session_id: session_id.to_string(),
        ok: true,
        result: Some(obj(vec![("secret", s("must-not-enter-diagnostics"))])),
        error: None,
    };
    match handshake_read_step(&unexpected, session_id, "handshake-test") {
        Err(WorkerTransportError::Protocol(detail)) => {
            assert!(detail.contains("stale-response"));
            assert!(!detail.contains("must-not-enter-diagnostics"));
            assert_eq!(detail, "unexpected worker frame during handshake: response id=\"stale-response\" ok=true");
        }
        other => panic!("unexpected outcome {other:?}"),
    }
}

#[test]
fn frame_descriptors_quote_ids_and_names_only() {
    let session_id = SessionId::new();
    let response = WorkerFrame::Response {
        protocol: WORKER_PROTOCOL_V1,
        id: "stale \"one\"".into(),
        session_id: session_id.to_string(),
        ok: true,
        result: Some(obj(vec![("secret", s("hidden"))])),
        error: None,
    };
    assert_eq!(worker_frame_descriptor(&response), "response id=\"stale \\\"one\\\"\" ok=true");
    let request = WorkerFrame::Request {
        protocol: WORKER_PROTOCOL_V1,
        id: "r1".into(),
        session_id: session_id.to_string(),
        method: method::PING.into(),
        payload: obj(vec![]),
    };
    assert_eq!(worker_frame_descriptor(&request), "request id=\"r1\" method=\"ping\"");
    let heartbeat = WorkerFrame::Event {
        protocol: WORKER_PROTOCOL_V1,
        session_id: session_id.to_string(),
        event: event::HEARTBEAT.into(),
        payload: obj(vec![]),
    };
    assert_eq!(worker_frame_descriptor(&heartbeat), "event \"heartbeat\"");
}

#[test]
fn handshake_refusals_name_the_values_involved() {
    let session_id = SessionId::new();
    let message = |r: Result<(), WorkerTransportError>| match r {
        Err(WorkerTransportError::Protocol(m)) => m,
        other => panic!("unexpected outcome {other:?}"),
    };
    let stale = valid_handshake(session_id, "other", 2_000);
    assert_eq!(
        message(validate_worker_handshake(&stale, session_id, "handshake-test", 2_000)),
        "worker handshake response id other does not match expected handshake-test"
    );
    let slow = valid_handshake(session_id, "handshake-test", 3_000);
    assert_eq!(
        message(validate_worker_handshake(&slow, session_id, "handshake-test", 2_000)),
        "worker handshake heartbeat interval 3000ms does not match ready interval 2000ms"
    );
}

#[test]
fn failed_handshake_reports_the_worker_error() {
    let session_id = SessionId::new();
    let failed = WorkerFrame::Response {
        protocol: WORKER_PROTOCOL_V1,
        id: "handshake-test".into(),
        session_id: session_id.to_string(),
        ok: false,
        result: None,
        error: Some(cokernel::protocol::worker::WorkerError {
            code: "CK-WORKER".into(),
            summary: "no kernel".into(),
            error_type: None,
        }),
    };
    match validate_worker_handshake(&failed, session_id, "handshake-test", 2_000) {
        Err(WorkerTransportError::Protocol(m)) => assert_eq!(m, "worker handshake failed CK-WORKER: no kernel"),
        other => panic!("unexpected {other:?}"),
    }
}
