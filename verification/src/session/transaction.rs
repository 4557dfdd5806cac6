//! Which worker frames a Session accepts in each of its phases, and the
//! ordering contract of one cell execution (the execute lifecycle).
use vstd::prelude::*;

use crate::domain::{OperationId, SessionEvidenceKind, SessionId};
use crate::domain::uuid_parse;
use crate::ids::uuid_text;
use crate::json::JsonValue;
use crate::protocol::worker::{event, WorkerFrame, WORKER_PROTOCOL_V1};
use crate::session::handshake::{frame_descriptor, worker_frame_descriptor};
use crate::text::{append_text, concat2, concat3, debug_quote, debug_text, decimal, str_eq, string_of, u64_to_decimal};
use crate::worker::{violation, violation_about, WorkerTransportError};

verus! {

/// Events that a worker may send at any time: liveness and warnings.
pub open spec fn is_background_event(name: Seq<char>) -> bool {
    name == event::HEARTBEAT@ || name == event::WORKER_WARNING@
}

/// Events that carry output of a running cell.
pub open spec fn is_output_event(name: Seq<char>) -> bool {
    ||| name == event::STDOUT@
    ||| name == event::STDERR@
    ||| name == event::EXECUTE_RESULT@
    ||| name == event::DISPLAY_DATA@
    ||| name == event::ERROR@
}

pub fn is_background_event_exec(name: &str) -> (r: bool)
    ensures
        r == is_background_event(name@),
{
    str_eq(name, event::HEARTBEAT) || str_eq(name, event::WORKER_WARNING)
}

pub fn is_output_event_exec(name: &str) -> (r: bool)
    ensures
        r == is_output_event(name@),
{
    str_eq(name, event::STDOUT) || str_eq(name, event::STDERR) || str_eq(
        name,
        event::EXECUTE_RESULT,
    ) || str_eq(name, event::DISPLAY_DATA) || str_eq(name, event::ERROR)
}

/// A frame belongs to the Session when it speaks worker protocol v1 and names
/// the Session's identifier.
pub open spec fn frame_identity_ok(expected: SessionId, frame: WorkerFrame) -> bool {
    frame.spec_protocol() == WORKER_PROTOCOL_V1 && frame.spec_session_id() == uuid_text(
        expected.0,
    )
}

/// Why a frame of another protocol or Session is refused: what it names and
/// what was expected.
pub open spec fn identity_refusal(expected: SessionId, frame: WorkerFrame) -> Seq<char> {
    if frame.spec_protocol() != WORKER_PROTOCOL_V1 {
        "worker frame protocol "@ + decimal(frame.spec_protocol() as nat) + " does not match expected 1"@
    } else {
        "worker frame session_id "@ + frame.spec_session_id() + " does not match expected "@ + uuid_text(
            expected.0,
        )
    }
}

/// The protocol violation `a`, `x`, `b`, `y` in that order.
fn violation_of4(a: &str, x: &str, b: &str, y: &str) -> (e: WorkerTransportError)
    ensures
        e matches WorkerTransportError::Protocol(m) && m@ == a@ + x@ + b@ + y@,
{
    let mut m = concat3(a, x, b);
    append_text(&mut m, y);
    WorkerTransportError::Protocol(m)
}

/// Checks that a frame belongs to the Session `expected_session_id`.
pub fn validate_worker_frame_identity(expected_session_id: SessionId, frame: &WorkerFrame) -> (r:
    Result<(), WorkerTransportError>)
    ensures
        r is Ok <==> frame_identity_ok(expected_session_id, *frame),
        r matches Err(e) ==> e is Protocol,
        !frame_identity_ok(expected_session_id, *frame) ==> (r matches Err(
            WorkerTransportError::Protocol(m),
        ) && m@ == identity_refusal(expected_session_id, *frame)),
{
    if frame.protocol() != WORKER_PROTOCOL_V1 {
        let n = u64_to_decimal(frame.protocol() as u64);
        return Err(violation_about("worker frame protocol ", n.as_str(), " does not match expected 1"));
    }
    let expected = expected_session_id.to_string();
    if !str_eq(frame.session_id(), expected.as_str()) {
        return Err(
            violation_of4(
                "worker frame session_id ",
                frame.session_id(),
                " does not match expected ",
                expected.as_str(),
            ),
        );
    }
    Ok(())
}

/// What the Session is waiting for from its worker.
#[derive(Debug, Clone, Copy)]
pub enum WorkerFrameExpectation<'a> {
    /// Nothing: only background events may arrive.
    Idle,
    /// The execute request with this id (the operation id).
    Execute(&'a str),
    /// The inspection request with this id.
    Inspection(&'a str),
}

/// The frames that fit an execute transaction with this request id: background
/// events, events of that operation (other than `ready`), and its response.
pub open spec fn execute_transaction_ok(request_id: Seq<char>, frame: WorkerFrame) -> bool {
    match frame {
        WorkerFrame::Event { event, payload, .. } => is_background_event(event@) || (event@
            != event::READY@ && payload.field_str("operation_id"@) == Some(request_id)),
        WorkerFrame::Response { id, .. } => id@ == request_id,
        WorkerFrame::Request { .. } => false,
    }
}

/// The frames that fit an inspection transaction with this request id:
/// background events and its response.
pub open spec fn inspection_transaction_ok(request_id: Seq<char>, frame: WorkerFrame) -> bool {
    match frame {
        WorkerFrame::Event { event, .. } => is_background_event(event@),
        WorkerFrame::Response { id, .. } => id@ == request_id,
        WorkerFrame::Request { .. } => false,
    }
}

/// The frames that fit an idle Session: background events only.
pub open spec fn idle_transaction_ok(frame: WorkerFrame) -> bool {
    match frame {
        WorkerFrame::Event { event, .. } => is_background_event(event@),
        _ => false,
    }
}

/// Which frames fit what the Session is waiting for.
pub open spec fn transaction_ok(expectation: WorkerFrameExpectation, frame: WorkerFrame) -> bool {
    match expectation {
        WorkerFrameExpectation::Idle => idle_transaction_ok(frame),
        WorkerFrameExpectation::Execute(request_id) => execute_transaction_ok(request_id@, frame),
        WorkerFrameExpectation::Inspection(request_id) => inspection_transaction_ok(
            request_id@,
            frame,
        ),
    }
}

/// Why a frame that does not fit the current transaction is refused: the ids
/// it and the transaction name, quoted, or the frame's description.
pub open spec fn transaction_refusal(expectation: WorkerFrameExpectation, frame: WorkerFrame) -> Seq<char> {
    match expectation {
        WorkerFrameExpectation::Idle => idle_refusal(frame),
        WorkerFrameExpectation::Execute(request_id) => execute_refusal(request_id@, frame),
        WorkerFrameExpectation::Inspection(request_id) => inspection_refusal(request_id@, frame),
    }
}

/// Why a frame is refused while the Session is idle.
pub open spec fn idle_refusal(frame: WorkerFrame) -> Seq<char> {
    "worker sent transaction frame while Session was idle: "@ + frame_descriptor(frame)
}

/// Why a frame is refused during the execute transaction `request_id`.
pub open spec fn execute_refusal(request_id: Seq<char>, frame: WorkerFrame) -> Seq<char> {
    match frame {
        WorkerFrame::Event { event, payload, .. } => if event@ == event::READY@ {
            "worker sent invalid frame during execute transaction: "@ + frame_descriptor(frame)
        } else {
            match payload.field_str("operation_id"@) {
                Some(op) => "worker execute event operation_id "@ + debug_text(op)
                    + " does not match active request "@ + debug_text(request_id),
                None => "worker execute event "@ + debug_text(event@) + " omitted operation_id"@,
            }
        },
        WorkerFrame::Response { id, .. } => "worker response id "@ + debug_text(id@)
            + " does not match active execute request "@ + debug_text(request_id),
        WorkerFrame::Request { .. } => "worker sent invalid frame during execute transaction: "@
            + frame_descriptor(frame),
    }
}

/// Why a frame is refused during the inspection transaction `request_id`.
pub open spec fn inspection_refusal(request_id: Seq<char>, frame: WorkerFrame) -> Seq<char> {
    match frame {
        WorkerFrame::Response { id, .. } => "worker response id "@ + debug_text(id@)
            + " does not match active inspection request "@ + debug_text(request_id),
        _ => "worker sent non-response frame during inspection transaction: "@ + frame_descriptor(frame),
    }
}

/// The protocol violation `prefix` followed by the frame's description.
fn violation_describing(prefix: &str, frame: &WorkerFrame) -> (e: WorkerTransportError)
    ensures
        e matches WorkerTransportError::Protocol(m) && m@ == prefix@ + frame_descriptor(*frame),
{
    let d = worker_frame_descriptor(frame);
    WorkerTransportError::Protocol(concat2(prefix, d.as_str()))
}

/// Checks that a frame fits the Session's current transaction; a frame that
/// does not is refused as `transaction_refusal` states.
pub fn validate_worker_frame_transaction(
    expectation: WorkerFrameExpectation<'_>,
    frame: &WorkerFrame,
) -> (r: Result<(), WorkerTransportError>)
    ensures
        r is Ok <==> transaction_ok(expectation, *frame),
        r matches Err(e) ==> e is Protocol,
        !transaction_ok(expectation, *frame) ==> (r matches Err(WorkerTransportError::Protocol(m))
            && m@ == transaction_refusal(expectation, *frame)),
{
    match expectation {
        WorkerFrameExpectation::Idle => match frame {
            WorkerFrame::Event { event, .. } => {
                if is_background_event_exec(event.as_str()) {
                    Ok(())
                } else {
                    Err(violation_describing("worker sent transaction frame while Session was idle: ", frame))
                }
            },
            _ => Err(violation_describing("worker sent transaction frame while Session was idle: ", frame)),
        },
        WorkerFrameExpectation::Execute(request_id) => match frame {
            WorkerFrame::Event { event, payload, .. } => {
                if is_background_event_exec(event.as_str()) {
                    return Ok(());
                }
                if str_eq(event.as_str(), event::READY) {
                    return Err(violation_describing("worker sent invalid frame during execute transaction: ", frame));
                }
                match payload.get_str("operation_id") {
                    Some(operation_id) => {
                        if str_eq(operation_id, request_id) {
                            Ok(())
                        } else {
                            let op = debug_quote(operation_id);
                            let expected = debug_quote(request_id);
                            Err(
                                violation_of4(
                                    "worker execute event operation_id ",
                                    op.as_str(),
                                    " does not match active request ",
                                    expected.as_str(),
                                ),
                            )
                        }
                    },
                    None => {
                        let name = debug_quote(event.as_str());
                        Err(violation_about("worker execute event ", name.as_str(), " omitted operation_id"))
                    },
                }
            },
            WorkerFrame::Response { id, .. } => {
                if str_eq(id.as_str(), request_id) {
                    Ok(())
                } else {
                    let got = debug_quote(id.as_str());
                    let expected = debug_quote(request_id);
                    Err(
                        violation_of4(
                            "worker response id ",
                            got.as_str(),
                            " does not match active execute request ",
                            expected.as_str(),
                        ),
                    )
                }
            },
            WorkerFrame::Request { .. } => Err(
                violation_describing("worker sent invalid frame during execute transaction: ", frame),
            ),
        },
        WorkerFrameExpectation::Inspection(request_id) => match frame {
            WorkerFrame::Event { event, .. } => {
                if is_background_event_exec(event.as_str()) {
                    Ok(())
                } else {
                    Err(
                        violation_describing(
                            "worker sent non-response frame during inspection transaction: ",
                            frame,
                        ),
                    )
                }
            },
            WorkerFrame::Response { id, .. } => {
                if str_eq(id.as_str(), request_id) {
                    Ok(())
                } else {
                    let got = debug_quote(id.as_str());
                    let expected = debug_quote(request_id);
                    Err(
                        violation_of4(
                            "worker response id ",
                            got.as_str(),
                            " does not match active inspection request ",
                            expected.as_str(),
                        ),
                    )
                }
            },
            WorkerFrame::Request { .. } => Err(
                violation_describing("worker sent non-response frame during inspection transaction: ", frame),
            ),
        },
    }
}

/// What `execution_finished` reported about a cell execution.
#[derive(Debug)]
pub struct ExecuteFinishedSummary {
    pub status: String,
    pub execution_count: u64,
    pub output_count: u64,
    pub output_truncated: bool,
    pub output_omitted_bytes: u64,
}

/// Progress of one execute request: started, the sequence number that the next
/// output must carry, and the summary once finished.
#[derive(Debug)]
pub struct ExecuteLifecycle {
    pub started: bool,
    pub next_sequence: u64,
    pub finished: Option<ExecuteFinishedSummary>,
}

/// The model of an `ExecuteFinishedSummary`.
pub struct FinishedView {
    pub status: Seq<char>,
    pub execution_count: u64,
    pub output_count: u64,
    pub output_truncated: bool,
    pub output_omitted_bytes: u64,
}

/// The model of an `ExecuteLifecycle`.
pub struct LifecycleView {
    pub started: bool,
    pub next_sequence: u64,
    pub finished: Option<FinishedView>,
}

impl View for ExecuteFinishedSummary {
    type V = FinishedView;

    open spec fn view(&self) -> FinishedView {
        FinishedView {
            status: self.status@,
            execution_count: self.execution_count,
            output_count: self.output_count,
            output_truncated: self.output_truncated,
            output_omitted_bytes: self.output_omitted_bytes,
        }
    }
}

impl View for ExecuteLifecycle {
    type V = LifecycleView;

    open spec fn view(&self) -> LifecycleView {
        LifecycleView {
            started: self.started,
            next_sequence: self.next_sequence,
            finished: match self.finished {
                Some(f) => Some(f@),
                None => None,
            },
        }
    }
}

/// The number of outputs accepted so far: one less than the next expected sequence.
pub open spec fn observed_outputs(l: LifecycleView) -> u64 {
    if l.next_sequence == 0 {
        0
    } else {
        (l.next_sequence - 1) as u64
    }
}

/// The lifecycle after `execution_finished` with this payload, or `None` when it is refused.
pub open spec fn finished_step(l: LifecycleView, payload: JsonValue) -> Option<LifecycleView> {
    if !l.started || l.finished is Some {
        None
    } else if payload.field_u64("output_count"@) != Some(observed_outputs(l)) {
        None
    } else {
        match (
            payload.field_str("status"@),
            payload.field_u64("execution_count"@),
            payload.field_bool("output_truncated"@),
            payload.field_u64("output_omitted_bytes"@),
        ) {
            (Some(status), Some(execution_count), Some(output_truncated), Some(
                output_omitted_bytes,
            )) => Some(
                LifecycleView {
                    finished: Some(
                        FinishedView {
                            status,
                            execution_count,
                            output_count: observed_outputs(l),
                            output_truncated,
                            output_omitted_bytes,
                        },
                    ),
                    ..l
                },
            ),
            _ => None,
        }
    }
}

/// Whether a response envelope correctly ends an execution that `finished` summarized.
pub open spec fn response_matches(
    l: LifecycleView,
    f: FinishedView,
    ok: bool,
    result: Option<JsonValue>,
    has_error: bool,
) -> bool {
    &&& ok
    &&& !has_error
    &&& result matches Some(r) && {
        &&& r is Object
        &&& r.field_str("status"@) == Some(f.status)
        &&& r.field_u64("execution_count"@) == Some(f.execution_count)
        &&& r.field_bool("output_truncated"@) == Some(f.output_truncated)
        &&& r.field_u64("output_omitted_bytes"@) == Some(f.output_omitted_bytes)
        &&& r.field_str("operation_id"@) matches Some(op) && op.len() > 0
    }
    &&& f.output_count == observed_outputs(l)
}

/// Why `execution_finished` with `payload` is refused, where `finished_step` refuses it.
pub open spec fn finished_refusal(l: LifecycleView, payload: JsonValue) -> Seq<char> {
    if !l.started {
        "worker emitted execution_finished before execution_started"@
    } else if l.finished is Some {
        "worker emitted execution_finished more than once for one execute request"@
    } else {
        match payload.field_u64("output_count"@) {
            None => "worker execution_finished omitted output_count"@,
            Some(n) => if n != observed_outputs(l) {
                "worker execution_finished output_count "@ + decimal(n as nat) + " does not match observed "@
                    + decimal(observed_outputs(l) as nat)
            } else if payload.field_str("status"@) is None {
                "worker execution_finished omitted status"@
            } else if payload.field_u64("execution_count"@) is None {
                "worker execution_finished omitted execution_count"@
            } else if payload.field_bool("output_truncated"@) is None {
                "worker execution_finished omitted output_truncated"@
            } else {
                "worker execution_finished omitted output_omitted_bytes"@
            },
        }
    }
}

/// Why the execute response is refused, where `response_matches` fails.
pub open spec fn response_refusal(
    l: LifecycleView,
    f: FinishedView,
    ok: bool,
    result: Option<JsonValue>,
    has_error: bool,
) -> Seq<char> {
    if !ok || has_error {
        "started execute request must finish with a successful response envelope"@
    } else {
        match result {
            Some(JsonValue::Object(entries)) => {
                let r = JsonValue::Object(entries);
                match r.field_str("status"@) {
                    None => "worker execute response omitted status"@,
                    Some(status) => if status != f.status {
                        "worker execute response status "@ + debug_text(status)
                            + " does not match execution_finished "@ + debug_text(f.status)
                    } else {
                        match r.field_u64("execution_count"@) {
                            None => "worker execute response omitted execution_count"@,
                            Some(n) => if n != f.execution_count {
                                "worker execute response execution_count "@ + decimal(n as nat)
                                    + " does not match execution_finished "@ + decimal(f.execution_count as nat)
                            } else {
                                match r.field_bool("output_truncated"@) {
                                    None => "worker execute response omitted output_truncated"@,
                                    Some(b) => if b != f.output_truncated {
                                        "worker execute response output_truncated does not match execution_finished"@
                                    } else {
                                        match r.field_u64("output_omitted_bytes"@) {
                                            None => "worker execute response omitted output_omitted_bytes"@,
                                            Some(m) => if m != f.output_omitted_bytes {
                                                "worker execute response output_omitted_bytes "@ + decimal(m as nat)
                                                    + " does not match execution_finished "@ + decimal(
                                                    f.output_omitted_bytes as nat,
                                                )
                                            } else {
                                                match r.field_str("operation_id"@) {
                                                    None => "worker execute response omitted operation_id"@,
                                                    Some(op) => if op.len() == 0 {
                                                        "worker execute response operation_id must be non-empty"@
                                                    } else {
                                                        "worker execute lifecycle output count changed after execution_finished"@
                                                    },
                                                }
                                            },
                                        }
                                    },
                                }
                            },
                        }
                    },
                }
            },
            _ => "worker execute response result must be an object"@,
        }
    }
}

/// Why a frame is refused by the execute lifecycle, where `lifecycle_step` refuses it.
pub open spec fn lifecycle_refusal(l: LifecycleView, frame: WorkerFrame) -> Seq<char> {
    match frame {
        WorkerFrame::Event { event, payload, .. } => if event@ == event::EXECUTION_STARTED@ {
            "worker emitted execution_started more than once for one execute request"@
        } else if is_output_event(event@) {
            if !l.started {
                "worker emitted execute output "@ + debug_text(event@) + " before execution_started"@
            } else if l.finished is Some {
                "worker emitted execute output "@ + debug_text(event@) + " after execution_finished"@
            } else {
                match payload.field_u64("sequence"@) {
                    None => "worker execute output "@ + debug_text(event@) + " omitted a valid sequence"@,
                    Some(n) => if n != l.next_sequence {
                        "worker execute output sequence "@ + decimal(n as nat) + " does not match expected "@
                            + decimal(l.next_sequence as nat)
                    } else {
                        "worker execute output sequence overflowed u64"@
                    },
                }
            }
        } else if event@ == event::EXECUTION_FINISHED@ {
            finished_refusal(l, payload)
        } else {
            "worker emitted invalid frame in execute lifecycle: "@ + frame_descriptor(frame)
        },
        WorkerFrame::Response { ok, result, error, .. } => if !l.started {
            "worker returned execute response before execution_started"@
        } else {
            match l.finished {
                None => "worker returned execute response before execution_finished"@,
                Some(f) => response_refusal(l, f, ok, result, error is Some),
            }
        },
        WorkerFrame::Request { .. } => "worker emitted invalid frame in execute lifecycle: "@ + frame_descriptor(
            frame,
        ),
    }
}

/// The execute lifecycle contract: `execution_started` once, then outputs
/// numbered 1, 2, ... without gaps, then `execution_finished` whose
/// `output_count` is the number of outputs seen, then a successful response
/// that repeats the finished summary. Background events change nothing; any
/// other frame is refused (`None`).
pub open spec fn lifecycle_step(l: LifecycleView, frame: WorkerFrame) -> Option<LifecycleView> {
    match frame {
        WorkerFrame::Event { event, payload, .. } => {
            if is_background_event(event@) {
                Some(l)
            } else if event@ == event::EXECUTION_STARTED@ {
                if l.started || l.finished is Some {
                    None
                } else {
                    Some(LifecycleView { started: true, ..l })
                }
            } else if is_output_event(event@) {
                if !l.started || l.finished is Some {
                    None
                } else if payload.field_u64("sequence"@) == Some(l.next_sequence) && l.next_sequence
                    < u64::MAX {
                    Some(LifecycleView { next_sequence: (l.next_sequence + 1) as u64, ..l })
                } else {
                    None
                }
            } else if event@ == event::EXECUTION_FINISHED@ {
                finished_step(l, payload)
            } else {
                None
            }
        },
        WorkerFrame::Response { ok, result, error, .. } => {
            if !l.started {
                None
            } else {
                match l.finished {
                    None => None,
                    Some(f) => if response_matches(l, f, ok, result, error is Some) {
                        Some(l)
                    } else {
                        None
                    },
                }
            }
        },
        WorkerFrame::Request { .. } => None,
    }
}

/// The lifecycle's own consistency: the first output is numbered 1, nothing is
/// recorded before `execution_started`, and a finished summary counts exactly
/// the outputs seen.
pub open spec fn lifecycle_wf(l: LifecycleView) -> bool {
    &&& l.next_sequence >= 1
    &&& !l.started ==> l.next_sequence == 1 && l.finished is None
    &&& l.finished matches Some(f) ==> l.started && f.output_count == l.next_sequence - 1
}

impl ExecuteLifecycle {
    /// A lifecycle before `execution_started`.
    pub fn new() -> (r: Self)
        ensures
            r@ == (LifecycleView { started: false, next_sequence: 1, finished: None }),
            lifecycle_wf(r@),
    {
        ExecuteLifecycle { started: false, next_sequence: 1, finished: None }
    }
}

/// Every accepted frame keeps the lifecycle consistent.
pub proof fn lemma_lifecycle_step_keeps_wf(l: LifecycleView, frame: WorkerFrame)
    requires
        lifecycle_wf(l),
        lifecycle_step(l, frame) is Some,
    ensures
        lifecycle_wf(lifecycle_step(l, frame)->0),
{
}

/// A response is accepted only after `execution_finished` was accepted, and it
/// leaves the lifecycle as it was.
pub proof fn lemma_response_needs_finished(l: LifecycleView, frame: WorkerFrame)
    requires
        frame is Response,
        lifecycle_step(l, frame) is Some,
    ensures
        l.started,
        l.finished is Some,
        lifecycle_step(l, frame) == Some(l),
{
}

/// During a started, unfinished execution, each output event (`stdout`,
/// `stderr`, `execute_result`, `display_data` or `error`) is accepted exactly
/// when it carries the next sequence number, and then advances that number by
/// one and changes nothing else.
pub proof fn lemma_outputs_advance_the_lifecycle(l: LifecycleView, frame: WorkerFrame)
    requires
        l.started,
        l.finished is None,
        l.next_sequence < u64::MAX,
        frame matches WorkerFrame::Event { event, .. } && (event@ == "stdout"@ || event@ == "stderr"@
            || event@ == "execute_result"@ || event@ == "display_data"@ || event@ == "error"@),
    ensures
        ({
            let sequence = match frame {
                WorkerFrame::Event { payload, .. } => payload.field_u64("sequence"@),
                _ => None,
            };
            &&& sequence == Some(l.next_sequence) ==> lifecycle_step(l, frame) == Some(
                LifecycleView { started: l.started, next_sequence: (l.next_sequence + 1) as u64, finished: l.finished },
            )
            &&& sequence != Some(l.next_sequence) ==> lifecycle_step(l, frame) is None
        }),
{
    reveal_strlit("stdout");
    reveal_strlit("stderr");
    reveal_strlit("execute_result");
    reveal_strlit("display_data");
    reveal_strlit("error");
    reveal_strlit("heartbeat");
    reveal_strlit("worker_warning");
    reveal_strlit("execution_started");
    reveal_strlit("execution_finished");
    assert(event::STDOUT@ == "stdout"@);
    assert(event::STDERR@ == "stderr"@);
    assert(event::EXECUTE_RESULT@ == "execute_result"@);
    assert(event::DISPLAY_DATA@ == "display_data"@);
    assert(event::ERROR@ == "error"@);
    assert(event::HEARTBEAT@ == "heartbeat"@);
    assert(event::WORKER_WARNING@ == "worker_warning"@);
    assert(event::EXECUTION_STARTED@ == "execution_started"@);
    assert(event::EXECUTION_FINISHED@ == "execution_finished"@);
    assert("stdout"@.len() == 6);
    assert("stderr"@.len() == 6);
    assert("execute_result"@.len() == 14);
    assert("display_data"@.len() == 12);
    assert("error"@.len() == 5);
    assert("heartbeat"@.len() == 9);
    assert("worker_warning"@.len() == 14);
    assert("execution_started"@.len() == 17);
    assert("execution_finished"@.len() == 18);
    assert("execute_result"@[0] != "worker_warning"@[0]);
}

/// A `heartbeat` or `worker_warning` event is accepted at every point of an
/// execution and leaves the lifecycle as it was.
pub proof fn lemma_background_events_change_nothing(l: LifecycleView, frame: WorkerFrame)
    requires
        frame matches WorkerFrame::Event { event, .. } && (event@ == "heartbeat"@ || event@ == "worker_warning"@),
    ensures
        lifecycle_step(l, frame) == Some(l),
{
    reveal_strlit("heartbeat");
    reveal_strlit("worker_warning");
    assert(event::HEARTBEAT@ == "heartbeat"@);
    assert(event::WORKER_WARNING@ == "worker_warning"@);
}

fn lifecycle_error(message: &str) -> (e: WorkerTransportError)
    ensures
        e matches WorkerTransportError::Protocol(m) && m@ == message@,
{
    violation(message)
}

/// Applies one frame to the execute lifecycle, as `lifecycle_step` states; a
/// refused frame leaves the lifecycle unchanged.
pub fn validate_execute_lifecycle(lifecycle: &mut ExecuteLifecycle, frame: &WorkerFrame) -> (r:
    Result<(), WorkerTransportError>)
    ensures
        match lifecycle_step(old(lifecycle)@, *frame) {
            Some(next) => r is Ok && final(lifecycle)@ == next,
            None => r is Err && final(lifecycle)@ == old(lifecycle)@,
        },
        r matches Err(e) ==> e is Protocol,
        lifecycle_step(old(lifecycle)@, *frame) is None ==> (r matches Err(WorkerTransportError::Protocol(m))
            && m@ == lifecycle_refusal(old(lifecycle)@, *frame)),
{
    match frame {
        WorkerFrame::Event { event, payload, .. } => {
            if is_background_event_exec(event.as_str()) {
                return Ok(());
            }
            if str_eq(event.as_str(), event::EXECUTION_STARTED) {
                if lifecycle.started || lifecycle.finished.is_some() {
                    return Err(
                        lifecycle_error(
                            "worker emitted execution_started more than once for one execute request",
                        ),
                    );
                }
                lifecycle.started = true;
                return Ok(());
            }
            if is_output_event_exec(event.as_str()) {
                let name = debug_quote(event.as_str());
                if !lifecycle.started {
                    return Err(
                        violation_about("worker emitted execute output ", name.as_str(), " before execution_started"),
                    );
                }
                if lifecycle.finished.is_some() {
                    return Err(
                        violation_about("worker emitted execute output ", name.as_str(), " after execution_finished"),
                    );
                }
                let sequence = match payload.get_u64("sequence") {
                    Some(s) => s,
                    None => {
                        return Err(
                            violation_about("worker execute output ", name.as_str(), " omitted a valid sequence"),
                        );
                    },
                };
                if sequence != lifecycle.next_sequence {
                    let got = u64_to_decimal(sequence);
                    let expected = u64_to_decimal(lifecycle.next_sequence);
                    return Err(
                        violation_of4(
                            "worker execute output sequence ",
                            got.as_str(),
                            " does not match expected ",
                            expected.as_str(),
                        ),
                    );
                }
                if lifecycle.next_sequence == u64::MAX {
                    return Err(lifecycle_error("worker execute output sequence overflowed u64"));
                }
                lifecycle.next_sequence = lifecycle.next_sequence + 1;
                return Ok(());
            }
            if str_eq(event.as_str(), event::EXECUTION_FINISHED) {
                if !lifecycle.started {
                    return Err(
                        lifecycle_error(
                            "worker emitted execution_finished before execution_started",
                        ),
                    );
                }
                if lifecycle.finished.is_some() {
                    return Err(
                        lifecycle_error(
                            "worker emitted execution_finished more than once for one execute request",
                        ),
                    );
                }
                let output_count = match payload.get_u64("output_count") {
                    Some(n) => n,
                    None => {
                        return Err(
                            lifecycle_error("worker execution_finished omitted output_count"),
                        );
                    },
                };
                let expected_output_count: u64 = if lifecycle.next_sequence == 0 {
                    0
                } else {
                    lifecycle.next_sequence - 1
                };
                if output_count != expected_output_count {
                    let got = u64_to_decimal(output_count);
                    let expected = u64_to_decimal(expected_output_count);
                    return Err(
                        violation_of4(
                            "worker execution_finished output_count ",
                            got.as_str(),
                            " does not match observed ",
                            expected.as_str(),
                        ),
                    );
                }
                let status = match payload.get_str("status") {
                    Some(s) => string_of(s),
                    None => {
                        return Err(lifecycle_error("worker execution_finished omitted status"));
                    },
                };
                let execution_count = match payload.get_u64("execution_count") {
                    Some(n) => n,
                    None => {
                        return Err(
                            lifecycle_error("worker execution_finished omitted execution_count"),
                        );
                    },
                };
                let output_truncated = match payload.get_bool("output_truncated") {
                    Some(b) => b,
                    None => {
                        return Err(
                            lifecycle_error("worker execution_finished omitted output_truncated"),
                        );
                    },
                };
                let output_omitted_bytes = match payload.get_u64("output_omitted_bytes") {
                    Some(n) => n,
                    None => {
                        return Err(
                            lifecycle_error(
                                "worker execution_finished omitted output_omitted_bytes",
                            ),
                        );
                    },
                };
                lifecycle.finished = Some(
                    ExecuteFinishedSummary {
                        status,
                        execution_count,
                        output_count,
                        output_truncated,
                        output_omitted_bytes,
                    },
                );
                return Ok(());
            }
            Err(violation_describing("worker emitted invalid frame in execute lifecycle: ", frame))
        },
        WorkerFrame::Response { ok, result, error, .. } => {
            if !lifecycle.started {
                return Err(
                    lifecycle_error("worker returned execute response before execution_started"),
                );
            }
            let finished = match &lifecycle.finished {
                Some(f) => f,
                None => {
                    return Err(
                        lifecycle_error(
                            "worker returned execute response before execution_finished",
                        ),
                    );
                },
            };
            if !*ok || error.is_some() {
                return Err(
                    lifecycle_error(
                        "started execute request must finish with a successful response envelope",
                    ),
                );
            }
            let result = match result {
                Some(r) => {
                    if !r.is_object() {
                        return Err(
                            lifecycle_error("worker execute response result must be an object"),
                        );
                    }
                    r
                },
                None => {
                    return Err(
                        lifecycle_error("worker execute response result must be an object"),
                    );
                },
            };
            let status = match result.get_str("status") {
                Some(s) => s,
                None => {
                    return Err(lifecycle_error("worker execute response omitted status"));
                },
            };
            if !str_eq(status, finished.status.as_str()) {
                let got = debug_quote(status);
                let expected = debug_quote(finished.status.as_str());
                return Err(
                    violation_of4(
                        "worker execute response status ",
                        got.as_str(),
                        " does not match execution_finished ",
                        expected.as_str(),
                    ),
                );
            }
            match result.get_u64("execution_count") {
                Some(n) => {
                    if n != finished.execution_count {
                        let got = u64_to_decimal(n);
                        let expected = u64_to_decimal(finished.execution_count);
                        return Err(
                            violation_of4(
                                "worker execute response execution_count ",
                                got.as_str(),
                                " does not match execution_finished ",
                                expected.as_str(),
                            ),
                        );
                    }
                },
                None => {
                    return Err(
                        lifecycle_error("worker execute response omitted execution_count"),
                    );
                },
            }
            match result.get_bool("output_truncated") {
                Some(b) => {
                    if b != finished.output_truncated {
                        return Err(
                            lifecycle_error(
                                "worker execute response output_truncated does not match execution_finished",
                            ),
                        );
                    }
                },
                None => {
                    return Err(
                        lifecycle_error("worker execute response omitted output_truncated"),
                    );
                },
            }
            match result.get_u64("output_omitted_bytes") {
                Some(n) => {
                    if n != finished.output_omitted_bytes {
                        let got = u64_to_decimal(n);
                        let expected = u64_to_decimal(finished.output_omitted_bytes);
                        return Err(
                            violation_of4(
                                "worker execute response output_omitted_bytes ",
                                got.as_str(),
                                " does not match execution_finished ",
                                expected.as_str(),
                            ),
                        );
                    }
                },
                None => {
                    return Err(
                        lifecycle_error("worker execute response omitted output_omitted_bytes"),
                    );
                },
            }
            match result.get_str("operation_id") {
                Some(op) => {
                    if op.unicode_len() == 0 {
                        return Err(
                            lifecycle_error(
                                "worker execute response operation_id must be non-empty",
                            ),
                        );
                    }
                },
                None => {
                    return Err(lifecycle_error("worker execute response omitted operation_id"));
                },
            }
            let observed: u64 = if lifecycle.next_sequence == 0 {
                0
            } else {
                lifecycle.next_sequence - 1
            };
            if finished.output_count != observed {
                return Err(
                    lifecycle_error(
                        "worker execute lifecycle output count changed after execution_finished",
                    ),
                );
            }
            Ok(())
        },
        WorkerFrame::Request { .. } => Err(
            violation_describing("worker emitted invalid frame in execute lifecycle: ", frame),
        ),
    }
}

/// The evidence entry that a worker frame leaves in the Session's recent tail.
pub open spec fn evidence_of_frame(frame: WorkerFrame) -> Option<
    (SessionEvidenceKind, Option<OperationId>, Option<Seq<char>>),
> {
    match frame {
        WorkerFrame::Event { event, payload, .. } => {
            let e = event@;
            let operation_id = match payload.field_str("operation_id"@) {
                Some(text) => match uuid_parse(text) {
                    Some(v) => Some(OperationId(v)),
                    None => None,
                },
                None => None,
            };
            if e == event::EXECUTION_STARTED@ {
                Some((SessionEvidenceKind::WorkerExecutionStarted, operation_id, Some(e)))
            } else if e == event::EXECUTION_FINISHED@ {
                Some(
                    (
                        SessionEvidenceKind::WorkerExecutionFinished,
                        operation_id,
                        payload.field_str("status"@),
                    ),
                )
            } else if e == event::WORKER_WARNING@ {
                Some((SessionEvidenceKind::WorkerWarning, operation_id, Some(e)))
            } else if e == event::ERROR@ {
                Some((SessionEvidenceKind::WorkerError, operation_id, payload.field_str("ename"@)))
            } else {
                None
            }
        },
        WorkerFrame::Response { id, ok, .. } => Some(
            (
                SessionEvidenceKind::WorkerResponse,
                match uuid_parse(id@) {
                    Some(v) => Some(OperationId(v)),
                    None => None,
                },
                Some(if ok { "ok"@ } else { "error"@ }),
            ),
        ),
        WorkerFrame::Request { .. } => None,
    }
}

/// The evidence entry that a worker frame leaves, as `evidence_of_frame` states.
pub fn session_evidence_from_worker_frame(frame: &WorkerFrame) -> (r: Option<
    (SessionEvidenceKind, Option<OperationId>, Option<String>),
>)
    ensures
        match evidence_of_frame(*frame) {
            None => r is None,
            Some((kind, operation_id, detail)) => r matches Some((k, o, d)) && k == kind && o
                == operation_id && match detail {
                None => d is None,
                Some(text) => d matches Some(s) && s@ == text,
            },
        },
{
    match frame {
        WorkerFrame::Event { event, payload, .. } => {
            let kind = if str_eq(event.as_str(), event::EXECUTION_STARTED) {
                SessionEvidenceKind::WorkerExecutionStarted
            } else if str_eq(event.as_str(), event::EXECUTION_FINISHED) {
                SessionEvidenceKind::WorkerExecutionFinished
            } else if str_eq(event.as_str(), event::WORKER_WARNING) {
                SessionEvidenceKind::WorkerWarning
            } else if str_eq(event.as_str(), event::ERROR) {
                SessionEvidenceKind::WorkerError
            } else {
                return None;
            };
            let operation_id = match payload.get_str("operation_id") {
                Some(text) => OperationId::parse(text),
                None => None,
            };
            let detail = match kind {
                SessionEvidenceKind::WorkerExecutionFinished => match payload.get_str("status") {
                    Some(s) => Some(string_of(s)),
                    None => None,
                },
                SessionEvidenceKind::WorkerError => match payload.get_str("ename") {
                    Some(s) => Some(string_of(s)),
                    None => None,
                },
                _ => Some(event.clone()),
            };
            Some((kind, operation_id, detail))
        },
        WorkerFrame::Response { id, ok, .. } => Some(
            (
                SessionEvidenceKind::WorkerResponse,
                OperationId::parse(id.as_str()),
                Some(string_of(if *ok { "ok" } else { "error" })),
            ),
        ),
        WorkerFrame::Request { .. } => None,
    }
}

} // verus!
