//! What the Runtime accepts from a worker: the shape of every inbound frame,
//! checked before the Session looks at it.
use vstd::prelude::*;

use crate::json::{all_strings, all_strings_exec, JsonValue};
use crate::protocol::worker::event;
use crate::protocol::worker::WorkerFrame;
use crate::protocol::FrameError;
use crate::text::{append_text, concat2, concat3, debug_quote, debug_text, str_eq, string_of};

verus! {

/// The longest correlation identifier (response id or operation id) a worker may send.
pub const MAX_WORKER_CORRELATION_ID_CHARS: usize = 256;

pub const STATUS_SUCCEEDED: &'static str = "SUCCEEDED";
pub const STATUS_FAILED: &'static str = "FAILED";

/// Why a worker frame was not accepted.
#[derive(Debug)]
pub enum WorkerTransportError {
    /// The frame codec refused the bytes.
    Frame(FrameError),
    /// The frame breaks the worker protocol; the message says how.
    Protocol(String),
    /// Reading or writing the socket failed; the system's message.
    Io(String),
}

/// A protocol violation with the given message.
pub fn violation(message: &str) -> (e: WorkerTransportError)
    ensures
        e matches WorkerTransportError::Protocol(m) && m@ == message@,
{
    WorkerTransportError::Protocol(string_of(message))
}

/// A protocol violation whose message names `subject` between two fixed parts.
pub fn violation_about(before: &str, subject: &str, after: &str) -> (e: WorkerTransportError)
    ensures
        e matches WorkerTransportError::Protocol(m) && m@ == before@ + subject@ + after@,
{
    WorkerTransportError::Protocol(concat3(before, subject, after))
}

/// The protocol violation `a` followed by `b`.
fn concat_violation(a: &str, b: &str) -> (e: WorkerTransportError)
    ensures
        e matches WorkerTransportError::Protocol(m) && m@ == a@ + b@,
{
    WorkerTransportError::Protocol(concat2(a, b))
}

/// A protocol violation about the event `name` (quoted as `{:?}` quotes it)
/// between two fixed parts.
fn event_violation(name: &str, after: &str) -> (e: WorkerTransportError)
    ensures
        e matches WorkerTransportError::Protocol(m) && m@ == "worker event "@ + debug_text(name@) + after@,
{
    let quoted = debug_quote(name);
    violation_about("worker event ", quoted.as_str(), after)
}

/// A protocol violation about the field `field` of the event `name`, both quoted.
fn field_violation(name: &str, what: &str, field: &str) -> (e: WorkerTransportError)
    ensures
        e matches WorkerTransportError::Protocol(m) && m@ == "worker event "@ + debug_text(name@) + what@
            + debug_text(field@),
{
    let quoted_name = debug_quote(name);
    let quoted_field = debug_quote(field);
    let mut m = concat3("worker event ", quoted_name.as_str(), what);
    append_text(&mut m, quoted_field.as_str());
    WorkerTransportError::Protocol(m)
}

/// A correlation identifier is non-empty and at most 256 characters long.
pub open spec fn correlation_id_ok(value: Seq<char>) -> bool {
    0 < value.len() <= MAX_WORKER_CORRELATION_ID_CHARS
}

/// Why a correlation identifier named `label` is refused, if it is.
pub open spec fn correlation_refusal(label: Seq<char>, value: Seq<char>) -> Option<Seq<char>> {
    if value.len() == 0 {
        Some("worker "@ + label + " must be non-empty"@)
    } else if value.len() > MAX_WORKER_CORRELATION_ID_CHARS {
        Some("worker "@ + label + " exceeds maximum length"@)
    } else {
        None
    }
}

/// Checks a correlation identifier (`label` names it in the message).
pub fn validate_correlation_id(label: &str, value: &str) -> (r: Result<(), WorkerTransportError>)
    ensures
        r is Ok <==> correlation_id_ok(value@),
        r matches Err(e) ==> e is Protocol,
        correlation_refusal(label@, value@) matches Some(m) ==> (r matches Err(
            WorkerTransportError::Protocol(x),
        ) && x@ == m),
{
    let n = value.unicode_len();
    if n == 0 {
        return Err(violation_about("worker ", label, " must be non-empty"));
    }
    if n > MAX_WORKER_CORRELATION_ID_CHARS {
        return Err(violation_about("worker ", label, " exceeds maximum length"));
    }
    Ok(())
}

/// Member `field` is a non-empty string.
pub open spec fn nonempty_str_field(payload: JsonValue, field: Seq<char>) -> bool {
    payload.field_str(field) matches Some(s) && s.len() > 0
}

/// Member `field` is an unsigned integer.
pub open spec fn u64_field(payload: JsonValue, field: Seq<char>) -> bool {
    payload.field_u64(field) is Some
}

/// Member `field` is a positive unsigned integer.
pub open spec fn positive_u64_field(payload: JsonValue, field: Seq<char>) -> bool {
    payload.field_u64(field) matches Some(n) && n > 0
}

/// The payload carries a valid `operation_id`.
pub open spec fn operation_id_ok(payload: JsonValue) -> bool {
    payload.field_str("operation_id"@) matches Some(s) && correlation_id_ok(s)
}

/// The payload carries a positive `sequence`.
pub open spec fn sequence_ok(payload: JsonValue) -> bool {
    positive_u64_field(payload, "sequence"@)
}

/// The payload of a `ready` event.
pub open spec fn ready_payload_ok(payload: JsonValue) -> bool {
    &&& payload.field_u64("pid"@) matches Some(pid) && 0 < pid <= u32::MAX
    &&& positive_u64_field(payload, "heartbeat_interval_ms"@)
    &&& nonempty_str_field(payload, "worker_version"@)
    &&& nonempty_str_field(payload, "python_version"@)
    &&& nonempty_str_field(payload, "ipython_version"@)
}

/// The payload of an `error` event.
pub open spec fn error_payload_ok(payload: JsonValue) -> bool {
    &&& operation_id_ok(payload)
    &&& sequence_ok(payload)
    &&& nonempty_str_field(payload, "ename"@)
    &&& payload.field_str("evalue"@) is Some
    &&& payload.field_array("traceback"@) matches Some(lines) && all_strings(lines)
}

/// The payload of an `execution_finished` event.
pub open spec fn finished_payload_ok(payload: JsonValue) -> bool {
    &&& operation_id_ok(payload)
    &&& nonempty_str_field(payload, "status"@)
    &&& (payload.field_str("status"@) == Some(STATUS_SUCCEEDED@) || payload.field_str("status"@)
        == Some(STATUS_FAILED@))
    &&& u64_field(payload, "output_count"@)
    &&& payload.field_bool("output_truncated"@) is Some
    &&& u64_field(payload, "output_omitted_bytes"@)
    &&& payload.field_array("output_truncation_reasons"@) matches Some(reasons) && all_strings(
        reasons,
    )
}

/// What each v1 event must carry in its payload.
pub open spec fn event_payload_valid(name: Seq<char>, payload: JsonValue) -> bool {
    if name == event::READY@ {
        ready_payload_ok(payload)
    } else if name == event::HEARTBEAT@ {
        positive_u64_field(payload, "monotonic_ns"@)
    } else if name == event::EXECUTION_STARTED@ {
        operation_id_ok(payload)
    } else if name == event::STDOUT@ || name == event::STDERR@ {
        operation_id_ok(payload) && sequence_ok(payload) && payload.field_str("text"@) is Some
    } else if name == event::EXECUTE_RESULT@ || name == event::DISPLAY_DATA@ {
        operation_id_ok(payload) && sequence_ok(payload) && payload.field_is_object("data"@)
            && payload.field_is_object("metadata"@)
    } else if name == event::ERROR@ {
        error_payload_ok(payload)
    } else if name == event::EXECUTION_FINISHED@ {
        finished_payload_ok(payload)
    } else if name == event::WORKER_WARNING@ {
        true
    } else {
        false
    }
}

/// The events of worker protocol v1.
pub open spec fn known_event(name: Seq<char>) -> bool {
    ||| name == event::READY@
    ||| name == event::EXECUTION_STARTED@
    ||| name == event::STDOUT@
    ||| name == event::STDERR@
    ||| name == event::EXECUTE_RESULT@
    ||| name == event::DISPLAY_DATA@
    ||| name == event::ERROR@
    ||| name == event::EXECUTION_FINISHED@
    ||| name == event::HEARTBEAT@
    ||| name == event::WORKER_WARNING@
}

/// What the Runtime accepts from a worker: never a request; a response whose id
/// is a valid correlation id and which carries a result exactly when it
/// succeeded and an error exactly when it failed; an event of protocol v1 with
/// an object payload that has the fields the event requires.
pub open spec fn inbound_frame_valid(frame: WorkerFrame) -> bool {
    match frame {
        WorkerFrame::Request { .. } => false,
        WorkerFrame::Response { id, ok, result, error, .. } => {
            &&& correlation_id_ok(id@)
            &&& if ok {
                error is None && result is Some
            } else {
                result is None && error is Some
            }
        },
        WorkerFrame::Event { event, payload, .. } => {
            &&& known_event(event@)
            &&& payload is Object
            &&& event_payload_valid(event@, payload)
        },
    }
}

/// Whether `name` is an event of worker protocol v1.
pub fn known_worker_event(name: &str) -> (r: bool)
    ensures
        r == known_event(name@),
{
    str_eq(name, event::READY) || str_eq(name, event::EXECUTION_STARTED) || str_eq(
        name,
        event::STDOUT,
    ) || str_eq(name, event::STDERR) || str_eq(name, event::EXECUTE_RESULT) || str_eq(
        name,
        event::DISPLAY_DATA,
    ) || str_eq(name, event::ERROR) || str_eq(name, event::EXECUTION_FINISHED) || str_eq(
        name,
        event::HEARTBEAT,
    ) || str_eq(name, event::WORKER_WARNING)
}

/// `r` is what a check answers given its `refusal`: success when there is
/// none, else a protocol violation with exactly that message.
pub open spec fn refused_as<T>(r: Result<T, WorkerTransportError>, refusal: Option<Seq<char>>) -> bool {
    match refusal {
        None => r is Ok,
        Some(m) => r matches Err(WorkerTransportError::Protocol(x)) && x@ == m,
    }
}

/// The first refusal of two checks made in turn.
pub open spec fn first_refusal(a: Option<Seq<char>>, b: Option<Seq<char>>) -> Option<Seq<char>> {
    if a is Some {
        a
    } else {
        b
    }
}

/// A refusal with message `m` exactly when `fails`.
pub open spec fn refusal_if(fails: bool, m: Seq<char>) -> Option<Seq<char>> {
    if fails {
        Some(m)
    } else {
        None
    }
}

/// Why member `field` of the payload of event `name` is refused as a non-empty string.
pub open spec fn string_field_refusal(name: Seq<char>, payload: JsonValue, field: Seq<char>) -> Option<Seq<char>> {
    refusal_if(
        !nonempty_str_field(payload, field),
        "worker event "@ + debug_text(name) + " requires non-empty string field "@ + debug_text(field),
    )
}

/// Why member `field` of the payload of event `name` is refused as an unsigned integer.
pub open spec fn u64_field_refusal(name: Seq<char>, payload: JsonValue, field: Seq<char>) -> Option<Seq<char>> {
    refusal_if(
        !u64_field(payload, field),
        "worker event "@ + debug_text(name) + " requires unsigned integer field "@ + debug_text(field),
    )
}

/// Why the `operation_id` of the payload of event `name` is refused.
pub open spec fn operation_id_refusal(name: Seq<char>, payload: JsonValue) -> Option<Seq<char>> {
    first_refusal(
        string_field_refusal(name, payload, "operation_id"@),
        correlation_refusal("operation_id"@, payload.field_str("operation_id"@)->0),
    )
}

/// Why the `sequence` of the payload of event `name` is refused.
pub open spec fn sequence_refusal(name: Seq<char>, payload: JsonValue) -> Option<Seq<char>> {
    first_refusal(
        u64_field_refusal(name, payload, "sequence"@),
        refusal_if(
            payload.field_u64("sequence"@) == Some(0u64),
            "worker event "@ + debug_text(name) + " sequence must be positive"@,
        ),
    )
}

/// Why the payload of a `ready` event is refused.
pub open spec fn ready_payload_refusal(name: Seq<char>, payload: JsonValue) -> Option<Seq<char>> {
    first_refusal(
        u64_field_refusal(name, payload, "pid"@),
        first_refusal(
            refusal_if(
                payload.field_u64("pid"@) matches Some(pid) && (pid == 0 || pid > u32::MAX),
                "worker ready pid must fit a positive u32"@,
            ),
            first_refusal(
                u64_field_refusal(name, payload, "heartbeat_interval_ms"@),
                first_refusal(
                    refusal_if(
                        payload.field_u64("heartbeat_interval_ms"@) == Some(0u64),
                        "worker ready heartbeat_interval_ms must be positive"@,
                    ),
                    first_refusal(
                        string_field_refusal(name, payload, "worker_version"@),
                        first_refusal(
                            string_field_refusal(name, payload, "python_version"@),
                            string_field_refusal(name, payload, "ipython_version"@),
                        ),
                    ),
                ),
            ),
        ),
    )
}

/// Why the payload of an `error` event is refused.
pub open spec fn error_payload_refusal(name: Seq<char>, payload: JsonValue) -> Option<Seq<char>> {
    first_refusal(
        operation_id_refusal(name, payload),
        first_refusal(
            sequence_refusal(name, payload),
            first_refusal(
                string_field_refusal(name, payload, "ename"@),
                first_refusal(
                    refusal_if(
                        payload.field_str("evalue"@) is None,
                        "worker error event requires string field \"evalue\""@,
                    ),
                    match payload.field_array("traceback"@) {
                        None => Some("worker error event requires array field \"traceback\""@),
                        Some(lines) => refusal_if(!all_strings(lines), "worker error traceback entries must be strings"@),
                    },
                ),
            ),
        ),
    )
}

/// Why the payload of an `execution_finished` event is refused.
pub open spec fn finished_payload_refusal(name: Seq<char>, payload: JsonValue) -> Option<Seq<char>> {
    first_refusal(
        operation_id_refusal(name, payload),
        first_refusal(
            string_field_refusal(name, payload, "status"@),
            first_refusal(
                refusal_if(
                    payload.field_str("status"@) != Some(STATUS_SUCCEEDED@) && payload.field_str("status"@)
                        != Some(STATUS_FAILED@),
                    "worker execution_finished status "@ + debug_text(payload.field_str("status"@)->0)
                        + " is invalid"@,
                ),
                first_refusal(
                    u64_field_refusal(name, payload, "output_count"@),
                    first_refusal(
                        refusal_if(
                            payload.field_bool("output_truncated"@) is None,
                            "worker execution_finished requires boolean field \"output_truncated\""@,
                        ),
                        first_refusal(
                            u64_field_refusal(name, payload, "output_omitted_bytes"@),
                            match payload.field_array("output_truncation_reasons"@) {
                                None => Some(
                                    "worker execution_finished requires array field \"output_truncation_reasons\""@,
                                ),
                                Some(reasons) => refusal_if(
                                    !all_strings(reasons),
                                    "worker output_truncation_reasons entries must be strings"@,
                                ),
                            },
                        ),
                    ),
                ),
            ),
        ),
    )
}

/// Why the payload of event `name` is refused, if it is.
pub open spec fn payload_refusal(name: Seq<char>, payload: JsonValue) -> Option<Seq<char>> {
    if name == event::READY@ {
        ready_payload_refusal(name, payload)
    } else if name == event::HEARTBEAT@ {
        first_refusal(
            u64_field_refusal(name, payload, "monotonic_ns"@),
            refusal_if(
                payload.field_u64("monotonic_ns"@) == Some(0u64),
                "worker heartbeat monotonic_ns must be positive"@,
            ),
        )
    } else if name == event::EXECUTION_STARTED@ {
        operation_id_refusal(name, payload)
    } else if name == event::STDOUT@ || name == event::STDERR@ {
        first_refusal(
            operation_id_refusal(name, payload),
            first_refusal(
                sequence_refusal(name, payload),
                refusal_if(
                    payload.field_str("text"@) is None,
                    "worker event "@ + debug_text(name) + " requires string field \"text\""@,
                ),
            ),
        )
    } else if name == event::EXECUTE_RESULT@ || name == event::DISPLAY_DATA@ {
        first_refusal(
            operation_id_refusal(name, payload),
            first_refusal(
                sequence_refusal(name, payload),
                first_refusal(
                    refusal_if(
                        !payload.field_is_object("data"@),
                        "worker event "@ + debug_text(name) + " requires object field \"data\""@,
                    ),
                    refusal_if(
                        !payload.field_is_object("metadata"@),
                        "worker event "@ + debug_text(name) + " requires object field \"metadata\""@,
                    ),
                ),
            ),
        )
    } else if name == event::ERROR@ {
        error_payload_refusal(name, payload)
    } else if name == event::EXECUTION_FINISHED@ {
        finished_payload_refusal(name, payload)
    } else if name == event::WORKER_WARNING@ {
        None
    } else {
        Some("worker sent unknown v1 event "@ + debug_text(name))
    }
}

/// Member `field` of an event payload, which must be a non-empty string.
pub fn required_string<'a>(name: &str, payload: &'a JsonValue, field: &str) -> (r: Result<
    &'a str,
    WorkerTransportError,
>)
    ensures
        r is Ok <==> nonempty_str_field(*payload, field@),
        r matches Ok(s) ==> payload.field_str(field@) == Some(s@),
        r matches Err(e) ==> e is Protocol,
        refused_as(r, string_field_refusal(name@, *payload, field@)),
{
    match payload.get_str(field) {
        Some(s) => {
            if s.unicode_len() == 0 {
                Err(field_violation(name, " requires non-empty string field ", field))
            } else {
                Ok(s)
            }
        },
        None => Err(field_violation(name, " requires non-empty string field ", field)),
    }
}

/// Member `field` of an event payload, which must be an unsigned integer.
pub fn required_u64(name: &str, payload: &JsonValue, field: &str) -> (r: Result<
    u64,
    WorkerTransportError,
>)
    ensures
        r is Ok <==> u64_field(*payload, field@),
        r matches Ok(n) ==> payload.field_u64(field@) == Some(n),
        r matches Err(e) ==> e is Protocol,
        refused_as(r, u64_field_refusal(name@, *payload, field@)),
{
    match payload.get_u64(field) {
        Some(n) => Ok(n),
        None => Err(field_violation(name, " requires unsigned integer field ", field)),
    }
}

/// The payload must carry a valid `operation_id`.
pub fn require_operation_id(name: &str, payload: &JsonValue) -> (r: Result<
    (),
    WorkerTransportError,
>)
    ensures
        r is Ok <==> operation_id_ok(*payload),
        r matches Err(e) ==> e is Protocol,
        refused_as(r, operation_id_refusal(name@, *payload)),
{
    let operation_id = required_string(name, payload, "operation_id")?;
    validate_correlation_id("operation_id", operation_id)
}

/// The payload must carry a positive `sequence`.
pub fn require_sequence(name: &str, payload: &JsonValue) -> (r: Result<(), WorkerTransportError>)
    ensures
        r is Ok <==> sequence_ok(*payload),
        r matches Err(e) ==> e is Protocol,
        refused_as(r, sequence_refusal(name@, *payload)),
{
    if required_u64(name, payload, "sequence")? == 0 {
        return Err(event_violation(name, " sequence must be positive"));
    }
    Ok(())
}

/// Checks the payload of a `ready` event.
fn validate_ready_payload(name: &str, payload: &JsonValue) -> (r: Result<(), WorkerTransportError>)
    ensures
        r is Ok <==> ready_payload_ok(*payload),
        r matches Err(e) ==> e is Protocol,
        refused_as(r, ready_payload_refusal(name@, *payload)),
{
    let pid = required_u64(name, payload, "pid")?;
    if pid == 0 || pid > 4294967295u64 {
        return Err(violation("worker ready pid must fit a positive u32"));
    }
    if required_u64(name, payload, "heartbeat_interval_ms")? == 0 {
        return Err(violation("worker ready heartbeat_interval_ms must be positive"));
    }
    required_string(name, payload, "worker_version")?;
    required_string(name, payload, "python_version")?;
    required_string(name, payload, "ipython_version")?;
    Ok(())
}

/// Checks the payload of an `error` event.
fn validate_error_payload(name: &str, payload: &JsonValue) -> (r: Result<(), WorkerTransportError>)
    ensures
        r is Ok <==> error_payload_ok(*payload),
        r matches Err(e) ==> e is Protocol,
        refused_as(r, error_payload_refusal(name@, *payload)),
{
    require_operation_id(name, payload)?;
    require_sequence(name, payload)?;
    required_string(name, payload, "ename")?;
    if payload.get_str("evalue").is_none() {
        return Err(violation("worker error event requires string field \"evalue\""));
    }
    match payload.get_array("traceback") {
        Some(traceback) => {
            if !all_strings_exec(traceback) {
                return Err(violation("worker error traceback entries must be strings"));
            }
            Ok(())
        },
        None => Err(violation("worker error event requires array field \"traceback\"")),
    }
}

/// Checks the payload of an `execution_finished` event.
fn validate_finished_payload(name: &str, payload: &JsonValue) -> (r: Result<
    (),
    WorkerTransportError,
>)
    ensures
        r is Ok <==> finished_payload_ok(*payload),
        r matches Err(e) ==> e is Protocol,
        refused_as(r, finished_payload_refusal(name@, *payload)),
{
    require_operation_id(name, payload)?;
    let status = required_string(name, payload, "status")?;
    if !(str_eq(status, STATUS_SUCCEEDED) || str_eq(status, STATUS_FAILED)) {
        let quoted = debug_quote(status);
        return Err(violation_about("worker execution_finished status ", quoted.as_str(), " is invalid"));
    }
    required_u64(name, payload, "output_count")?;
    if payload.get_bool("output_truncated").is_none() {
        return Err(
            violation(
                "worker execution_finished requires boolean field \"output_truncated\"",
            ),
        );
    }
    required_u64(name, payload, "output_omitted_bytes")?;
    match payload.get_array("output_truncation_reasons") {
        Some(reasons) => {
            if !all_strings_exec(reasons) {
                return Err(
                    violation("worker output_truncation_reasons entries must be strings"),
                );
            }
            Ok(())
        },
        None => Err(
            violation(
                "worker execution_finished requires array field \"output_truncation_reasons\"",
            ),
        ),
    }
}

/// Checks that an event payload carries what its event requires.
pub fn validate_worker_event_payload(name: &str, payload: &JsonValue) -> (r: Result<
    (),
    WorkerTransportError,
>)
    ensures
        r is Ok <==> event_payload_valid(name@, *payload),
        r matches Err(e) ==> e is Protocol,
        refused_as(r, payload_refusal(name@, *payload)),
{
    if str_eq(name, event::READY) {
        validate_ready_payload(name, payload)
    } else if str_eq(name, event::HEARTBEAT) {
        if required_u64(name, payload, "monotonic_ns")? == 0 {
            return Err(violation("worker heartbeat monotonic_ns must be positive"));
        }
        Ok(())
    } else if str_eq(name, event::EXECUTION_STARTED) {
        require_operation_id(name, payload)
    } else if str_eq(name, event::STDOUT) || str_eq(name, event::STDERR) {
        require_operation_id(name, payload)?;
        require_sequence(name, payload)?;
        if payload.get_str("text").is_none() {
            return Err(event_violation(name, " requires string field \"text\""));
        }
        Ok(())
    } else if str_eq(name, event::EXECUTE_RESULT) || str_eq(name, event::DISPLAY_DATA) {
        require_operation_id(name, payload)?;
        require_sequence(name, payload)?;
        if !payload.get_is_object("data") {
            return Err(event_violation(name, " requires object field \"data\""));
        }
        if !payload.get_is_object("metadata") {
            return Err(
                event_violation(name, " requires object field \"metadata\""),
            );
        }
        Ok(())
    } else if str_eq(name, event::ERROR) {
        validate_error_payload(name, payload)
    } else if str_eq(name, event::EXECUTION_FINISHED) {
        validate_finished_payload(name, payload)
    } else if str_eq(name, event::WORKER_WARNING) {
        Ok(())
    } else {
        let quoted = debug_quote(name);
        Err(concat_violation("worker sent unknown v1 event ", quoted.as_str()))
    }
}

/// The message with which a frame from a worker is refused before the fields
/// of an event's payload are looked at, if it is.
pub open spec fn inbound_refusal(frame: WorkerFrame) -> Option<Seq<char>> {
    match frame {
        WorkerFrame::Request { .. } => Some("worker must not send request frames to the Runtime"@),
        WorkerFrame::Response { id, ok, result, error, .. } => if correlation_refusal(
            "response id"@,
            id@,
        ) is Some {
            correlation_refusal("response id"@, id@)
        } else if ok && error is Some {
            Some("successful worker response included an error"@)
        } else if ok && result is None {
            Some("successful worker response omitted result"@)
        } else if !ok && result is Some {
            Some("failed worker response included a result"@)
        } else if !ok && error is None {
            Some("failed worker response omitted error"@)
        } else {
            None
        },
        WorkerFrame::Event { event, payload, .. } => if !known_event(event@) {
            Some("worker sent unknown v1 event "@ + debug_text(event@))
        } else if !(payload is Object) {
            Some("worker event "@ + debug_text(event@) + " payload must be an object"@)
        } else {
            None
        },
    }
}

/// Checks a frame that arrived from a worker, as `inbound_frame_valid` states;
/// where `inbound_refusal` gives a message, that is the refusal's.
pub fn validate_worker_inbound_frame(frame: &WorkerFrame) -> (r: Result<(), WorkerTransportError>)
    ensures
        r is Ok <==> inbound_frame_valid(*frame),
        r matches Err(e) ==> e is Protocol,
        inbound_refusal(*frame) matches Some(m) ==> (r matches Err(WorkerTransportError::Protocol(x))
            && x@ == m),
        match *frame {
            WorkerFrame::Event { event, payload, .. } => known_event(event@) && payload is Object ==> refused_as(
                r,
                payload_refusal(event@, payload),
            ),
            _ => true,
        },
{
    match frame {
        WorkerFrame::Request { .. } => Err(
            violation("worker must not send request frames to the Runtime"),
        ),
        WorkerFrame::Response { id, ok, result, error, .. } => {
            if let Err(e) = validate_correlation_id("response id", id.as_str()) {
                return Err(e);
            }
            if *ok {
                if error.is_some() {
                    return Err(violation("successful worker response included an error"));
                }
                if result.is_none() {
                    return Err(violation("successful worker response omitted result"));
                }
            } else {
                if result.is_some() {
                    return Err(violation("failed worker response included a result"));
                }
                if error.is_none() {
                    return Err(violation("failed worker response omitted error"));
                }
            }
            Ok(())
        },
        WorkerFrame::Event { event, payload, .. } => {
            if !known_worker_event(event.as_str()) {
                let quoted = debug_quote(event.as_str());
                return Err(concat_violation("worker sent unknown v1 event ", quoted.as_str()));
            }
            if !payload.is_object() {
                return Err(event_violation(event.as_str(), " payload must be an object"));
            }
            validate_worker_event_payload(event.as_str(), payload)
        },
    }
}

/// The arguments of the uv run that starts a Session worker: run inside the
/// Project, with the worker package installed editable, on the given socket.
pub open spec fn worker_args(
    project_root: Seq<char>,
    worker_package: Seq<char>,
    socket_path: Seq<char>,
    session_id: u128,
) -> Seq<Seq<char>> {
    seq![
        "run"@,
        "--project"@,
        project_root,
        "--with-editable"@,
        worker_package,
        "--"@,
        "cokernel-worker"@,
        "--socket"@,
        socket_path,
        "--session-id"@,
        crate::ids::uuid_text(session_id),
    ]
}

/// The arguments of the uv run that starts a Session worker, as `worker_args` states.
pub fn uv_worker_args(
    project_root: &str,
    worker_package: &str,
    socket_path: &str,
    session_id: crate::domain::SessionId,
) -> (r: Vec<String>)
    ensures
        r@.map_values(|a: String| a@) == worker_args(project_root@, worker_package@, socket_path@, session_id.0),
{
    let r = vec![
        crate::text::string_of("run"),
        crate::text::string_of("--project"),
        crate::text::string_of(project_root),
        crate::text::string_of("--with-editable"),
        crate::text::string_of(worker_package),
        crate::text::string_of("--"),
        crate::text::string_of("cokernel-worker"),
        crate::text::string_of("--socket"),
        crate::text::string_of(socket_path),
        crate::text::string_of("--session-id"),
        session_id.to_string(),
    ];
    assert(r@.map_values(|a: String| a@) =~= worker_args(project_root@, worker_package@, socket_path@, session_id.0));
    r
}

/// The message of a worker transport error: the codec's or the protocol's.
pub open spec fn transport_error_text(e: WorkerTransportError) -> Seq<char> {
    match e {
        WorkerTransportError::Frame(f) => crate::protocol::frame_error_text(f),
        WorkerTransportError::Protocol(m) => "worker protocol violation: "@ + m@,
        WorkerTransportError::Io(m) => "worker transport I/O failed: "@ + m@,
    }
}

impl WorkerTransportError {
    /// The message of the error.
    pub fn describe(&self) -> (r: String)
        ensures
            r@ == transport_error_text(*self),
    {
        match self {
            WorkerTransportError::Frame(f) => f.describe(),
            WorkerTransportError::Protocol(m) => crate::text::concat2("worker protocol violation: ", m.as_str()),
            WorkerTransportError::Io(m) => crate::text::concat2("worker transport I/O failed: ", m.as_str()),
        }
    }
}

} // verus!
