//! The names of the requests that the Runtime sends to a worker.
use vstd::prelude::*;

verus! {

pub const HANDSHAKE: &'static str = "handshake";
pub const EXECUTE: &'static str = "execute";
pub const INSPECT_VARIABLES: &'static str = "inspect_variables";
pub const GET_VARIABLE: &'static str = "get_variable";
pub const RESET: &'static str = "reset";
pub const SHUTDOWN: &'static str = "shutdown";
pub const PING: &'static str = "ping";

} // verus!
