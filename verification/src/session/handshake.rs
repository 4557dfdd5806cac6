//! The worker handshake: what a worker must answer before a Session uses it.
use vstd::prelude::*;

use crate::domain::SessionId;
use crate::json::JsonValue;
use crate::protocol::worker::{event, method, WorkerFrame, WORKER_PROTOCOL_V1};
use crate::protocol::DEFAULT_MAX_FRAME_BYTES;
use crate::session::transaction::{frame_identity_ok, identity_refusal, validate_worker_frame_identity};
use crate::text::{append_text, bound_text, bounded_chars, concat2, concat3, debug_quote, debug_text, str_eq, string_of, u128_to_decimal, u64_to_decimal, decimal};
use crate::worker::{nonempty_str_field, positive_u64_field, violation, WorkerTransportError};

verus! {

pub const MAX_WORKER_VERSION_CHARS: usize = 256;
pub const MAX_WORKER_CAPABILITIES: usize = 64;
pub const MAX_WORKER_CAPABILITY_CHARS: usize = 128;
pub const MAX_HANDSHAKE_ERROR_CODE_CHARS: usize = 128;
pub const MAX_HANDSHAKE_ERROR_SUMMARY_CHARS: usize = 512;

/// The text of a capability entry (empty for a non-string).
pub open spec fn cap_text(c: JsonValue) -> Seq<char> {
    match c {
        JsonValue::String(s) => s@,
        _ => Seq::empty(),
    }
}

/// A capability is a non-empty string of at most 128 characters.
pub open spec fn capability_ok(c: JsonValue) -> bool {
    c is String && 0 < cap_text(c).len() <= MAX_WORKER_CAPABILITY_CHARS
}

/// Whether the list names capability `name`.
pub open spec fn has_capability(caps: Seq<JsonValue>, name: Seq<char>) -> bool {
    exists|i: int| 0 <= i < caps.len() && cap_text(#[trigger] caps[i]) == name
}

/// At most 64 well-formed, pairwise distinct capabilities, among them every
/// request that a Session sends.
pub open spec fn capabilities_ok(caps: Seq<JsonValue>) -> bool {
    &&& caps.len() <= MAX_WORKER_CAPABILITIES
    &&& forall|i: int| 0 <= i < caps.len() ==> capability_ok(#[trigger] caps[i])
    &&& forall|i: int, j: int|
        0 <= i < j < caps.len() ==> cap_text(#[trigger] caps[i]) != cap_text(#[trigger] caps[j])
    &&& has_capability(caps, method::EXECUTE@)
    &&& has_capability(caps, method::INSPECT_VARIABLES@)
    &&& has_capability(caps, method::GET_VARIABLE@)
    &&& has_capability(caps, method::RESET@)
    &&& has_capability(caps, method::SHUTDOWN@)
}

/// Positive output limits that fit together: an event is smaller than a frame,
/// an operation holds at least one event, and a blob fits in an event.
pub open spec fn output_limits_ok(limits: JsonValue) -> bool {
    &&& limits is Object
    &&& positive_u64_field(limits, "max_event_bytes"@)
    &&& positive_u64_field(limits, "max_operation_bytes"@)
    &&& positive_u64_field(limits, "max_blob_bytes"@)
    &&& limits.field_u64("max_event_bytes"@)->0 < DEFAULT_MAX_FRAME_BYTES
    &&& limits.field_u64("max_operation_bytes"@)->0 >= limits.field_u64("max_event_bytes"@)->0
    &&& limits.field_u64("max_blob_bytes"@)->0 <= limits.field_u64("max_event_bytes"@)->0
}

/// The result of a successful handshake: protocol 1, a worker version of at
/// most 256 characters, the heartbeat interval announced in `ready`, the
/// capabilities and the output limits.
pub open spec fn handshake_result_ok(result: JsonValue, expected_heartbeat_ms: u128) -> bool {
    &&& result.field_u64("protocol"@) == Some(WORKER_PROTOCOL_V1 as u64)
    &&& nonempty_str_field(result, "worker_version"@)
    &&& result.field_str("worker_version"@)->0.len() <= MAX_WORKER_VERSION_CHARS
    &&& result.field_u64("heartbeat_interval_ms"@) matches Some(ms) && ms > 0 && ms as u128
        == expected_heartbeat_ms
    &&& result.field_array("capabilities"@) matches Some(caps) && capabilities_ok(caps)
    &&& result.field("output_limits"@) matches Some(limits) && output_limits_ok(limits)
}

/// The handshake answer that a Session accepts: a successful response of the
/// Session to the handshake request, with a valid result.
pub open spec fn handshake_ok(
    frame: WorkerFrame,
    expected_session_id: SessionId,
    expected_request_id: Seq<char>,
    expected_heartbeat_ms: u128,
) -> bool {
    &&& frame_identity_ok(expected_session_id, frame)
    &&& frame matches WorkerFrame::Response { id, ok, result, error, .. } && {
        &&& id@ == expected_request_id
        &&& ok
        &&& error is None
        &&& result matches Some(r) && handshake_result_ok(r, expected_heartbeat_ms)
    }
}

/// `value` bounded to `max_chars` characters for a diagnostic message.
pub fn bounded_handshake_text(value: &str, max_chars: usize) -> (r: String)
    ensures
        r@ == bounded_chars(value@, max_chars as nat),
{
    bound_text(value, max_chars)
}

/// A short description of a frame for diagnostics: its kind, id and method or
/// event name (quoted as `{:?}` quotes them), never its payload.
pub open spec fn frame_descriptor(frame: WorkerFrame) -> Seq<char> {
    match frame {
        WorkerFrame::Request { id, method, .. } => "request id="@ + debug_text(id@) + " method="@
            + debug_text(method@),
        WorkerFrame::Response { id, ok, .. } => "response id="@ + debug_text(id@) + " ok="@ + if ok {
            "true"@
        } else {
            "false"@
        },
        WorkerFrame::Event { event, .. } => "event "@ + debug_text(event@),
    }
}

/// The description of a frame, as `frame_descriptor` states.
pub fn worker_frame_descriptor(frame: &WorkerFrame) -> (r: String)
    ensures
        r@ == frame_descriptor(*frame),
{
    match frame {
        WorkerFrame::Request { id, method, .. } => {
            let id_text = debug_quote(id.as_str());
            let method_text = debug_quote(method.as_str());
            let head = concat3("request id=", id_text.as_str(), " method=");
            concat2(head.as_str(), method_text.as_str())
        },
        WorkerFrame::Response { id, ok, .. } => {
            let id_text = debug_quote(id.as_str());
            let head = concat3("response id=", id_text.as_str(), " ok=");
            concat2(head.as_str(), if *ok { "true" } else { "false" })
        },
        WorkerFrame::Event { event, .. } => {
            let name = debug_quote(event.as_str());
            concat2("event ", name.as_str())
        },
    }
}

fn contains_text(seen: &Vec<&str>, name: &str) -> (r: bool)
    ensures
        r == exists|k: int| 0 <= k < seen@.len() && (#[trigger] seen@[k])@ == name@,
{
    let mut k: usize = 0;
    while k < seen.len()
        invariant
            0 <= k <= seen.len(),
            forall|j: int| 0 <= j < k ==> (#[trigger] seen@[j])@ != name@,
        decreases seen.len() - k,
    {
        if str_eq(seen[k], name) {
            return true;
        }
        k += 1;
    }
    false
}

fn validate_capabilities(caps: &Vec<JsonValue>) -> (r: Result<(), WorkerTransportError>)
    ensures
        r is Ok <==> capabilities_ok(caps@),
        r matches Err(e) ==> e is Protocol,
{
    if caps.len() > MAX_WORKER_CAPABILITIES {
        return Err(violation("worker handshake capability list exceeds maximum item count"));
    }
    let mut seen: Vec<&str> = Vec::new();
    let mut i: usize = 0;
    while i < caps.len()
        invariant
            0 <= i <= caps.len(),
            caps.len() <= MAX_WORKER_CAPABILITIES,
            seen@.len() == i,
            forall|k: int| 0 <= k < i ==> (#[trigger] seen@[k])@ == cap_text(caps@[k]),
            forall|k: int| 0 <= k < i ==> capability_ok(#[trigger] caps@[k]),
            forall|a: int, b: int|
                0 <= a < b < i ==> cap_text(#[trigger] caps@[a]) != cap_text(#[trigger] caps@[b]),
        decreases caps.len() - i,
    {
        let c = match caps[i].as_str() {
            Some(s) => s,
            None => {
                return Err(violation("worker handshake capabilities must be non-empty strings"));
            },
        };
        let n = c.unicode_len();
        if n == 0 {
            return Err(violation("worker handshake capabilities must be non-empty strings"));
        }
        if n > MAX_WORKER_CAPABILITY_CHARS {
            return Err(violation("worker handshake capability exceeds maximum length"));
        }
        if contains_text(&seen, c) {
            let quoted = debug_quote(c);
            let message = concat3("worker handshake capability ", quoted.as_str(), " is duplicated");
            proof {
                let k = choose|k: int| 0 <= k < seen@.len() && (#[trigger] seen@[k])@ == c@;
                assert(cap_text(caps@[k]) == cap_text(caps@[i as int]));
            }
            return Err(WorkerTransportError::Protocol(message));
        }
        assert(cap_text(caps@[i as int]) == c@);
        assert forall|a: int, b: int| 0 <= a < b < i + 1 implies cap_text(
            #[trigger] caps@[a],
        ) != cap_text(#[trigger] caps@[b]) by {
            if b == i {
                assert(seen@[a]@ != c@);
            }
        }
        seen.push(c);
        i += 1;
    }
    let required: [&str; 5] = [
        method::EXECUTE,
        method::INSPECT_VARIABLES,
        method::GET_VARIABLE,
        method::RESET,
        method::SHUTDOWN,
    ];
    assert(forall|k: int| 0 <= k < caps@.len() ==> (#[trigger] seen@[k])@ == cap_text(caps@[k]));
    let mut j: usize = 0;
    while j < 5
        invariant
            0 <= j <= 5,
            required@ == seq![
                method::EXECUTE,
                method::INSPECT_VARIABLES,
                method::GET_VARIABLE,
                method::RESET,
                method::SHUTDOWN,
            ],
            seen@.len() == caps@.len(),
            forall|k: int| 0 <= k < caps@.len() ==> (#[trigger] seen@[k])@ == cap_text(caps@[k]),
            forall|m: int| 0 <= m < j ==> has_capability(caps@, (#[trigger] required@[m])@),
        decreases 5 - j,
    {
        if !contains_text(&seen, required[j]) {
            let message = concat3(
                "worker handshake omitted required capability ",
                required[j],
                "",
            );
            proof {
                if has_capability(caps@, required@[j as int]@) {
                    let i0 = choose|i0: int|
                        0 <= i0 < caps@.len() && cap_text(#[trigger] caps@[i0])
                            == required@[j as int]@;
                    assert(seen@[i0]@ == required@[j as int]@);
                }
            }
            return Err(WorkerTransportError::Protocol(message));
        }
        proof {
            let k = choose|k: int| 0 <= k < seen@.len() && (#[trigger] seen@[k])@ == required@[j as int]@;
            assert(cap_text(caps@[k]) == required@[j as int]@);
        }
        j += 1;
    }
    assert(has_capability(caps@, required@[0]@));
    assert(has_capability(caps@, required@[1]@));
    assert(has_capability(caps@, required@[2]@));
    assert(has_capability(caps@, required@[3]@));
    assert(has_capability(caps@, required@[4]@));
    Ok(())
}

fn validate_output_limits(limits: &JsonValue) -> (r: Result<(), WorkerTransportError>)
    ensures
        r is Ok <==> output_limits_ok(*limits),
        r matches Err(e) ==> e is Protocol,
{
    if !limits.is_object() {
        return Err(violation("worker handshake omitted output limits"));
    }
    let max_event_bytes = match limits.get_u64("max_event_bytes") {
        Some(n) => n,
        None => {
            return Err(violation("worker handshake output limit max_event_bytes must be positive"));
        },
    };
    if max_event_bytes == 0 {
        return Err(violation("worker handshake output limit max_event_bytes must be positive"));
    }
    let max_operation_bytes = match limits.get_u64("max_operation_bytes") {
        Some(n) => n,
        None => {
            return Err(
                violation("worker handshake output limit max_operation_bytes must be positive"),
            );
        },
    };
    if max_operation_bytes == 0 {
        return Err(
            violation("worker handshake output limit max_operation_bytes must be positive"),
        );
    }
    let max_blob_bytes = match limits.get_u64("max_blob_bytes") {
        Some(n) => n,
        None => {
            return Err(violation("worker handshake output limit max_blob_bytes must be positive"));
        },
    };
    if max_blob_bytes == 0 {
        return Err(violation("worker handshake output limit max_blob_bytes must be positive"));
    }
    if max_event_bytes >= DEFAULT_MAX_FRAME_BYTES as u64 {
        return Err(
            violation("worker handshake max_event_bytes must be smaller than the frame limit"),
        );
    }
    if max_operation_bytes < max_event_bytes {
        return Err(
            violation("worker handshake max_operation_bytes must be at least max_event_bytes"),
        );
    }
    if max_blob_bytes > max_event_bytes {
        return Err(violation("worker handshake max_blob_bytes must not exceed max_event_bytes"));
    }
    Ok(())
}

/// Why a handshake answer is refused, as far as its envelope, protocol,
/// worker version and heartbeat interval decide it; `None` where the answer
/// passes those (its capabilities and output limits are checked after them).
pub open spec fn handshake_refusal(
    frame: WorkerFrame,
    expected_session_id: SessionId,
    expected_request_id: Seq<char>,
    expected_heartbeat_ms: u128,
) -> Option<Seq<char>> {
    if !frame_identity_ok(expected_session_id, frame) {
        Some(identity_refusal(expected_session_id, frame))
    } else {
        match frame {
            WorkerFrame::Response { id, ok, result, error, .. } => if id@ != expected_request_id {
                Some("worker handshake response id "@ + id@ + " does not match expected "@ + expected_request_id)
            } else if !ok {
                Some(
                    "worker handshake failed "@ + match error {
                        Some(e) => bounded_chars(e.code@, MAX_HANDSHAKE_ERROR_CODE_CHARS as nat) + ": "@
                            + bounded_chars(e.summary@, MAX_HANDSHAKE_ERROR_SUMMARY_CHARS as nat),
                        None => "without structured error"@,
                    },
                )
            } else if error is Some {
                Some("successful worker handshake included an error"@)
            } else {
                match result {
                    None => Some("successful worker handshake omitted result"@),
                    Some(r) => handshake_result_refusal(r, expected_heartbeat_ms),
                }
            },
            _ => Some("worker handshake did not return a response frame"@),
        }
    }
}

/// Why the result of a successful handshake is refused, as far as its
/// protocol, worker version and heartbeat interval decide it.
pub open spec fn handshake_result_refusal(r: JsonValue, expected_heartbeat_ms: u128) -> Option<Seq<char>> {
    match r.field_u64("protocol"@) {
        None => Some("worker handshake omitted protocol version"@),
        Some(p) => if p != WORKER_PROTOCOL_V1 as u64 {
            Some("worker handshake protocol "@ + decimal(p as nat) + " does not match expected 1"@)
        } else {
            match r.field_str("worker_version"@) {
                None => Some("worker handshake omitted worker version"@),
                Some(v) => if v.len() == 0 {
                    Some("worker handshake omitted worker version"@)
                } else if v.len() > MAX_WORKER_VERSION_CHARS {
                    Some("worker handshake worker version exceeds maximum length"@)
                } else {
                    match r.field_u64("heartbeat_interval_ms"@) {
                        None => Some("worker handshake omitted positive heartbeat interval"@),
                        Some(ms) => if ms == 0 {
                            Some("worker handshake omitted positive heartbeat interval"@)
                        } else if ms != expected_heartbeat_ms {
                            Some(
                                "worker handshake heartbeat interval "@ + decimal(ms as nat)
                                    + "ms does not match ready interval "@ + decimal(expected_heartbeat_ms as nat)
                                    + "ms"@,
                            )
                        } else {
                            None
                        },
                    }
                },
            }
        },
    }
}

/// Checks a worker's handshake answer, as `handshake_ok` states. The expected
/// heartbeat interval is the one the worker announced in its `ready` event.
pub fn validate_worker_handshake(
    frame: &WorkerFrame,
    expected_session_id: SessionId,
    expected_request_id: &str,
    expected_heartbeat_interval_ms: u128,
) -> (r: Result<(), WorkerTransportError>)
    ensures
        r is Ok <==> handshake_ok(
            *frame,
            expected_session_id,
            expected_request_id@,
            expected_heartbeat_interval_ms,
        ),
        r matches Err(e) ==> e is Protocol,
        handshake_refusal(*frame, expected_session_id, expected_request_id@, expected_heartbeat_interval_ms)
            matches Some(m) ==> (r matches Err(WorkerTransportError::Protocol(x)) && x@ == m),
{
    if let Err(e) = validate_worker_frame_identity(expected_session_id, frame) {
        return Err(e);
    }
    let (id, ok, result, error) = match frame {
        WorkerFrame::Response { id, ok, result, error, .. } => (id, ok, result, error),
        _ => {
            return Err(violation("worker handshake did not return a response frame"));
        },
    };
    if !str_eq(id.as_str(), expected_request_id) {
        let mut message = concat3("worker handshake response id ", id.as_str(), " does not match expected ");
        append_text(&mut message, expected_request_id);
        return Err(WorkerTransportError::Protocol(message));
    }
    if !*ok {
        let detail = match error {
            Some(e) => {
                let code = bounded_handshake_text(e.code.as_str(), MAX_HANDSHAKE_ERROR_CODE_CHARS);
                let summary = bounded_handshake_text(
                    e.summary.as_str(),
                    MAX_HANDSHAKE_ERROR_SUMMARY_CHARS,
                );
                concat3(code.as_str(), ": ", summary.as_str())
            },
            None => string_of("without structured error"),
        };
        let message = concat2("worker handshake failed ", detail.as_str());
        assert(message@ =~= "worker handshake failed "@ + detail@);
        return Err(WorkerTransportError::Protocol(message));
    }
    if error.is_some() {
        return Err(violation("successful worker handshake included an error"));
    }
    let result = match result {
        Some(r) => r,
        None => {
            return Err(violation("successful worker handshake omitted result"));
        },
    };
    match result.get_u64("protocol") {
        Some(p) => {
            if p != WORKER_PROTOCOL_V1 as u64 {
                let got = u64_to_decimal(p);
                return Err(
                    WorkerTransportError::Protocol(
                        concat3("worker handshake protocol ", got.as_str(), " does not match expected 1"),
                    ),
                );
            }
        },
        None => {
            return Err(violation("worker handshake omitted protocol version"));
        },
    }
    match result.get_str("worker_version") {
        Some(v) => {
            let n = v.unicode_len();
            if n == 0 {
                return Err(violation("worker handshake omitted worker version"));
            }
            if n > MAX_WORKER_VERSION_CHARS {
                return Err(violation("worker handshake worker version exceeds maximum length"));
            }
        },
        None => {
            return Err(violation("worker handshake omitted worker version"));
        },
    }
    match result.get_u64("heartbeat_interval_ms") {
        Some(ms) => {
            if ms == 0 {
                return Err(violation("worker handshake omitted positive heartbeat interval"));
            }
            if ms as u128 != expected_heartbeat_interval_ms {
                let got = u64_to_decimal(ms);
                let expected = u128_to_decimal(expected_heartbeat_interval_ms);
                let mut message = concat3(
                    "worker handshake heartbeat interval ",
                    got.as_str(),
                    "ms does not match ready interval ",
                );
                append_text(&mut message, expected.as_str());
                append_text(&mut message, "ms");
                return Err(WorkerTransportError::Protocol(message));
            }
        },
        None => {
            return Err(violation("worker handshake omitted positive heartbeat interval"));
        },
    }
    match result.get_array("capabilities") {
        Some(caps) => validate_capabilities(caps)?,
        None => {
            return Err(violation("worker handshake omitted capabilities"));
        },
    }
    match result.get("output_limits") {
        Some(limits) => validate_output_limits(limits),
        None => Err(violation("worker handshake omitted output limits")),
    }
}

/// What to do with a frame read while waiting for the handshake answer.
#[derive(Debug, Clone, Copy, PartialEq, Eq)]
pub enum HandshakeRead {
    /// The answer to the handshake request: validate it.
    Answer,
    /// A heartbeat: keep reading.
    KeepReading,
}

/// `r` refuses `frame` as unexpected during the handshake, naming it by its
/// description and nothing of its payload.
pub open spec fn unexpected_frame_is(r: Result<HandshakeRead, WorkerTransportError>, frame: WorkerFrame) -> bool {
    r matches Err(WorkerTransportError::Protocol(m)) && m@ == "unexpected worker frame during handshake: "@
        + frame_descriptor(frame)
}

/// The decision of the handshake reader on one frame: the Session's response
/// to the handshake request is the answer, a heartbeat is skipped, anything
/// else (or a frame of another Session or protocol) is a protocol violation.
pub fn handshake_read_step(
    frame: &WorkerFrame,
    expected_session_id: SessionId,
    expected_request_id: &str,
) -> (r: Result<HandshakeRead, WorkerTransportError>)
    ensures
        !frame_identity_ok(expected_session_id, *frame) ==> r is Err,
        frame_identity_ok(expected_session_id, *frame) ==> match *frame {
            WorkerFrame::Response { id, .. } => if id@ == expected_request_id@ {
                r == Ok::<HandshakeRead, WorkerTransportError>(HandshakeRead::Answer)
            } else {
                unexpected_frame_is(r, *frame)
            },
            WorkerFrame::Event { event, .. } => if event@ == event::HEARTBEAT@ {
                r == Ok::<HandshakeRead, WorkerTransportError>(HandshakeRead::KeepReading)
            } else {
                unexpected_frame_is(r, *frame)
            },
            WorkerFrame::Request { .. } => unexpected_frame_is(r, *frame),
        },
        r matches Err(e) ==> e is Protocol,
{
    if let Err(e) = validate_worker_frame_identity(expected_session_id, frame) {
        return Err(e);
    }
    match frame {
        WorkerFrame::Response { id, .. } => {
            if str_eq(id.as_str(), expected_request_id) {
                return Ok(HandshakeRead::Answer);
            }
        },
        WorkerFrame::Event { event, .. } => {
            if str_eq(event.as_str(), event::HEARTBEAT) {
                return Ok(HandshakeRead::KeepReading);
            }
        },
        _ => {},
    }
    let descriptor = worker_frame_descriptor(frame);
    Err(
        WorkerTransportError::Protocol(
            concat2("unexpected worker frame during handshake: ", descriptor.as_str()),
        ),
    )
}

} // verus!
