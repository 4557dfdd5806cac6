use cokernel::domain::{ExecutionOrigin, OperationId, SessionId};
use cokernel::json::{JsonNumber, JsonValue};
use cokernel::protocol::methods::name;
use cokernel::protocol::worker::{WorkerFrame, WorkerError};
use cokernel::protocol::{
    check_payload_size, encode_json_frame, frame_payload_len, FrameError, DEFAULT_MAX_FRAME_BYTES,
    PROTOCOL_V1,
};
use cokernel::session::actor::{execute_request_frame, validate_execute_request_frame, ExecuteRequest};
use cokernel::session::error::SessionError;
use cokernel::worker::WorkerTransportError;
use serde_json::{Number, Value};

fn to_serde(v: &JsonValue) -> Value {
    match v {
        JsonValue::Null => Value::Null,
        JsonValue::Bool(b) => Value::Bool(*b),
        JsonValue::Number(JsonNumber::PosInt(n)) => Value::Number(Number::from(*n)),
        JsonValue::Number(JsonNumber::NegInt(n)) => Value::Number(Number::from(*n)),
        JsonValue::Number(JsonNumber::Float(bits)) => {
            Number::from_f64(f64::from_bits(*bits)).map(Value::Number).unwrap_or(Value::Null)
        }
        JsonValue::String(s) => Value::String(s.clone()),
        JsonValue::Array(items) => Value::Array(items.iter().map(to_serde).collect()),
        JsonValue::Object(entries) => {
            let mut map = serde_json::Map::new();
            for (k, v) in entries {
                map.insert(k.clone(), to_serde(v));
            }
            Value::Object(map)
        }
    }
}

fn error_to_serde(e: &WorkerError) -> Value {
    let mut map = serde_json::Map::new();
    map.insert("code".into(), Value::String(e.code.clone()));
    map.insert("summary".into(), Value::String(e.summary.clone()));
    if let Some(t) = &e.error_type {
        map.insert("error_type".into(), Value::String(t.clone()));
    }
    Value::Object(map)
}

fn frame_to_serde(frame: &WorkerFrame) -> Value {
    let mut map = serde_json::Map::new();
    match frame {
        WorkerFrame::Request { protocol, id, session_id, method, payload } => {
            map.insert("type".into(), Value::String("request".into()));
            map.insert("protocol".into(), Value::Number(Number::from(*protocol)));
            map.insert("id".into(), Value::String(id.clone()));
            map.insert("session_id".into(), Value::String(session_id.clone()));
            map.insert("method".into(), Value::String(method.clone()));
            map.insert("payload".into(), to_serde(payload));
        }
        WorkerFrame::Response { protocol, id, session_id, ok, result, error } => {
            map.insert("type".into(), Value::String("response".into()));
            map.insert("protocol".into(), Value::Number(Number::from(*protocol)));
            map.insert("id".into(), Value::String(id.clone()));
            map.insert("session_id".into(), Value::String(session_id.clone()));
            map.insert("ok".into(), Value::Bool(*ok));
            if let Some(r) = result {
                map.insert("result".into(), to_serde(r));
            }
            if let Some(e) = error {
                map.insert("error".into(), error_to_serde(e));
            }
        }
        WorkerFrame::Event { protocol, session_id, event, payload } => {
            map.insert("type".into(), Value::String("event".into()));
            map.insert("protocol".into(), Value::Number(Number::from(*protocol)));
            map.insert("session_id".into(), Value::String(session_id.clone()));
            map.insert("event".into(), Value::String(event.clone()));
            map.insert("payload".into(), to_serde(payload));
        }
    }
    Value::Object(map)
}

#[test]
fn method_names_match_v1_contract() {
    assert_eq!(name::PROJECTS_CREATE, "projects.create");
    assert_eq!(name::PACKAGES_SYNC, "packages.sync");
    assert_eq!(name::SESSIONS_ENSURE_PRIMARY, "sessions.ensure_primary");
}

#[test]
fn frame_prefix_is_big_endian_payload_length() {
    let mut request = serde_json::Map::new();
    request.insert("protocol".into(), Value::Number(Number::from(PROTOCOL_V1)));
    request.insert("request_id".into(), Value::String("1".into()));
    request.insert("method".into(), Value::String("bridge.ping".into()));
    request.insert("params".into(), Value::Null);
    let payload = serde_json::to_vec(&Value::Object(request)).unwrap();
    let frame = encode_json_frame(&payload, DEFAULT_MAX_FRAME_BYTES).unwrap();
    let len = u32::from_be_bytes(frame[..4].try_into().unwrap()) as usize;
    assert_eq!(len, frame.len() - 4);
}

#[test]
fn execute_request_preflight_accepts_small_frame() {
    let request = ExecuteRequest {
        operation_id: OperationId::new(),
        origin: ExecutionOrigin::Human,
        cell_id: Some("cell-1".into()),
        source: "x = 1\nx + 1".into(),
    };
    let frame = execute_request_frame(SessionId::new(), &request);
    let encoded = serde_json::to_vec(&frame_to_serde(&frame)).unwrap();
    assert!(validate_execute_request_frame(&encoded).is_ok());
}

#[test]
fn execute_request_preflight_rejects_oversized_frame() {
    let request = ExecuteRequest {
        operation_id: OperationId::new(),
        origin: ExecutionOrigin::Human,
        cell_id: Some("cell-oversized".into()),
        source: "x".repeat(DEFAULT_MAX_FRAME_BYTES),
    };
    let frame = execute_request_frame(SessionId::new(), &request);
    let encoded = serde_json::to_vec(&frame_to_serde(&frame)).unwrap();
    let error = validate_execute_request_frame(&encoded).unwrap_err();
    assert!(matches!(
        error,
        SessionError::WorkerTransport(WorkerTransportError::Frame(FrameError::TooLarge(_)))
    ));
}

#[test]
fn execute_request_frame_carries_operation_cell_source_and_origin() {
    let operation_id = OperationId::new();
    let session_id = SessionId::new();
    let request = ExecuteRequest {
        operation_id,
        origin: ExecutionOrigin::Mcp,
        cell_id: None,
        source: "print(1)".into(),
    };
    let value = frame_to_serde(&execute_request_frame(session_id, &request));
    assert_eq!(value["type"], "request");
    assert_eq!(value["method"], "execute");
    assert_eq!(value["id"], operation_id.to_string());
    assert_eq!(value["session_id"], session_id.to_string());
    assert_eq!(value["payload"]["operation_id"], operation_id.to_string());
    assert_eq!(value["payload"]["cell_id"], Value::Null);
    assert_eq!(value["payload"]["source"], "print(1)");
    assert_eq!(value["payload"]["origin"], "MCP");
}

#[test]
fn encoded_frame_reads_back_its_payload() {
    let payload = b"{\"pong\":true}".to_vec();
    let frame = encode_json_frame(&payload, 64).unwrap();
    assert_eq!(frame[..4], [0, 0, 0, 13]);
    let prefix: [u8; 4] = frame[..4].try_into().unwrap();
    assert_eq!(frame_payload_len(prefix, 64).unwrap(), payload.len());
    assert_eq!(&frame[4..], &payload[..]);
}

#[test]
fn frames_over_the_limit_are_refused_with_their_length() {
    let payload = vec![b'x'; 300];
    assert!(matches!(encode_json_frame(&payload, 299), Err(FrameError::TooLarge(300))));
    assert!(encode_json_frame(&payload, 300).is_ok());
    assert!(matches!(frame_payload_len([0, 0, 1, 44], 299), Err(FrameError::TooLarge(300))));
    assert!(matches!(check_payload_size(&payload, 10), Err(FrameError::TooLarge(300))));
    assert!(check_payload_size(&payload, 300).is_ok());
}
