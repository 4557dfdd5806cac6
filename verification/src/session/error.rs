//! Why a Session could not start or had to stop.
use vstd::prelude::*;

use crate::domain::{FailureTrigger, SessionId};
use crate::ids::uuid_text;
use crate::text::{concat2, concat3, decimal, string_of, u64_to_decimal};
use crate::worker::{transport_error_text, WorkerTransportError};

verus! {

/// A failure of a Session's worker or of the Runtime's side of it.
#[derive(Debug)]
pub enum SessionError {
    /// A Runtime I/O operation failed; the operating system's message.
    Io(String),
    /// The worker broke the transport or the protocol.
    WorkerTransport(WorkerTransportError),
    /// The worker did not connect in time.
    StartupTimeout,
    /// The worker exited during startup; how it exited.
    WorkerExitedDuringStartup(String),
    /// The worker exited unexpectedly; how it exited.
    WorkerExited(String),
    /// The worker closed its socket.
    WorkerDisconnected,
    /// No worker activity within this many milliseconds.
    WorkerHeartbeatTimeout(u64),
    /// The worker's `ready` event was missing or malformed.
    InvalidReady(String),
    /// The Session no longer takes commands.
    CommandChannelClosed,
    /// The Session did not stop before a restart gave up waiting.
    StopTimeout(SessionId),
}

/// The failure trigger that a Session error stands for.
pub open spec fn trigger_of(error: SessionError) -> FailureTrigger {
    match error {
        SessionError::WorkerExitedDuringStartup(_) | SessionError::WorkerExited(
            _,
        ) => FailureTrigger::ProcessExit,
        SessionError::WorkerDisconnected => FailureTrigger::WorkerDisconnected,
        SessionError::WorkerHeartbeatTimeout(_) => FailureTrigger::HeartbeatTimeout,
        SessionError::WorkerTransport(_) => FailureTrigger::WorkerProtocol,
        SessionError::Io(_) => FailureTrigger::RuntimeIo,
        SessionError::CommandChannelClosed | SessionError::StopTimeout(
            _,
        ) => FailureTrigger::RuntimeControl,
        SessionError::StartupTimeout | SessionError::InvalidReady(_) => FailureTrigger::Startup,
    }
}

/// Classifies a Session error as the trigger of a failure record.
pub fn failure_trigger(error: &SessionError) -> (r: FailureTrigger)
    ensures
        r == trigger_of(*error),
{
    match error {
        SessionError::WorkerExitedDuringStartup(_) | SessionError::WorkerExited(
            _,
        ) => FailureTrigger::ProcessExit,
        SessionError::WorkerDisconnected => FailureTrigger::WorkerDisconnected,
        SessionError::WorkerHeartbeatTimeout(_) => FailureTrigger::HeartbeatTimeout,
        SessionError::WorkerTransport(_) => FailureTrigger::WorkerProtocol,
        SessionError::Io(_) => FailureTrigger::RuntimeIo,
        SessionError::CommandChannelClosed | SessionError::StopTimeout(
            _,
        ) => FailureTrigger::RuntimeControl,
        SessionError::StartupTimeout | SessionError::InvalidReady(_) => FailureTrigger::Startup,
    }
}

/// The message of a Session error. A heartbeat timeout is given in milliseconds.
pub open spec fn session_error_text(e: SessionError) -> Seq<char> {
    match e {
        SessionError::Io(m) => "session runtime I/O failed: "@ + m@,
        SessionError::WorkerTransport(t) => transport_error_text(t),
        SessionError::StartupTimeout => "worker failed to connect before startup timeout"@,
        SessionError::WorkerExitedDuringStartup(m) => "worker exited during startup: "@ + m@,
        SessionError::WorkerExited(m) => "worker exited unexpectedly: "@ + m@,
        SessionError::WorkerDisconnected => "worker disconnected unexpectedly"@,
        SessionError::WorkerHeartbeatTimeout(ms) => "worker heartbeat timed out after "@ + decimal(
            ms as nat,
        ) + "ms"@,
        SessionError::InvalidReady(m) => "worker did not send a valid ready event: "@ + m@,
        SessionError::CommandChannelClosed => "session command channel is closed"@,
        SessionError::StopTimeout(id) => "session "@ + uuid_text(id.0)
            + " did not stop before restart timeout"@,
    }
}

impl SessionError {
    /// The message of the error.
    pub fn describe(&self) -> (r: String)
        ensures
            r@ == session_error_text(*self),
    {
        match self {
            SessionError::Io(m) => concat2("session runtime I/O failed: ", m.as_str()),
            SessionError::WorkerTransport(t) => t.describe(),
            SessionError::StartupTimeout => string_of("worker failed to connect before startup timeout"),
            SessionError::WorkerExitedDuringStartup(m) => concat2("worker exited during startup: ", m.as_str()),
            SessionError::WorkerExited(m) => concat2("worker exited unexpectedly: ", m.as_str()),
            SessionError::WorkerDisconnected => string_of("worker disconnected unexpectedly"),
            SessionError::WorkerHeartbeatTimeout(ms) => {
                let digits = u64_to_decimal(*ms);
                concat3("worker heartbeat timed out after ", digits.as_str(), "ms")
            },
            SessionError::InvalidReady(m) => concat2("worker did not send a valid ready event: ", m.as_str()),
            SessionError::CommandChannelClosed => string_of("session command channel is closed"),
            SessionError::StopTimeout(id) => {
                let text = id.to_string();
                concat3("session ", text.as_str(), " did not stop before restart timeout")
            },
        }
    }
}

} // verus!
