//! The Runtime/worker wire contract: frames exchanged over the worker socket.
use vstd::prelude::*;

use crate::json::JsonValue;

pub mod event;
pub mod method;

verus! {

/// The Runtime/worker protocol version.
pub const WORKER_PROTOCOL_V1: u32 = 1;

/// A structured error that a worker reports in a failed response.
#[derive(Debug, Clone, PartialEq, Eq)]
pub struct WorkerError {
    pub code: String,
    pub summary: String,
    pub error_type: Option<String>,
}

/// One frame on the worker socket.
#[derive(Debug, PartialEq)]
pub enum WorkerFrame {
    Request { protocol: u32, id: String, session_id: String, method: String, payload: JsonValue },
    Response {
        protocol: u32,
        id: String,
        session_id: String,
        ok: bool,
        result: Option<JsonValue>,
        error: Option<WorkerError>,
    },
    Event { protocol: u32, session_id: String, event: String, payload: JsonValue },
}

impl WorkerFrame {
    pub open spec fn spec_protocol(self) -> u32 {
        match self {
            WorkerFrame::Request { protocol, .. } => protocol,
            WorkerFrame::Response { protocol, .. } => protocol,
            WorkerFrame::Event { protocol, .. } => protocol,
        }
    }

    pub open spec fn spec_session_id(self) -> Seq<char> {
        match self {
            WorkerFrame::Request { session_id, .. } => session_id@,
            WorkerFrame::Response { session_id, .. } => session_id@,
            WorkerFrame::Event { session_id, .. } => session_id@,
        }
    }

    /// The protocol version that the frame carries.
    pub fn protocol(&self) -> (r: u32)
        ensures
            r == self.spec_protocol(),
    {
        match self {
            WorkerFrame::Request { protocol, .. } => *protocol,
            WorkerFrame::Response { protocol, .. } => *protocol,
            WorkerFrame::Event { protocol, .. } => *protocol,
        }
    }

    /// The Session that the frame belongs to.
    pub fn session_id(&self) -> (r: &str)
        ensures
            r@ == self.spec_session_id(),
    {
        match self {
            WorkerFrame::Request { session_id, .. } => session_id.as_str(),
            WorkerFrame::Response { session_id, .. } => session_id.as_str(),
            WorkerFrame::Event { session_id, .. } => session_id.as_str(),
        }
    }
}

} // verus!
