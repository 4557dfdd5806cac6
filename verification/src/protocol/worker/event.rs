//! The names of the events that a worker emits.
use vstd::prelude::*;

verus! {

pub const READY: &'static str = "ready";
pub const EXECUTION_STARTED: &'static str = "execution_started";
pub const STDOUT: &'static str = "stdout";
pub const STDERR: &'static str = "stderr";
pub const EXECUTE_RESULT: &'static str = "execute_result";
pub const DISPLAY_DATA: &'static str = "display_data";
pub const ERROR: &'static str = "error";
pub const EXECUTION_FINISHED: &'static str = "execution_finished";
pub const HEARTBEAT: &'static str = "heartbeat";
pub const WORKER_WARNING: &'static str = "worker_warning";

} // verus!
