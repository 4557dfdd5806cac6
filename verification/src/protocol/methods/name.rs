//! The names of the Runtime methods of protocol v1.
use vstd::prelude::*;

verus! {

pub const BRIDGE_HELLO: &'static str = "bridge.hello";
pub const BRIDGE_PING: &'static str = "bridge.ping";
pub const BRIDGE_SHUTDOWN: &'static str = "bridge.shutdown";

pub const PROJECTS_LIST: &'static str = "projects.list";
pub const PROJECTS_CREATE: &'static str = "projects.create";
pub const PROJECTS_REGISTER: &'static str = "projects.register";
pub const PROJECTS_GET: &'static str = "projects.get";
pub const PROJECTS_REMOVE_FROM_REGISTRY: &'static str = "projects.remove_from_registry";

pub const PACKAGES_ADD: &'static str = "packages.add";
pub const PACKAGES_REMOVE: &'static str = "packages.remove";
pub const PACKAGES_SYNC: &'static str = "packages.sync";
pub const ENVIRONMENT_GET_STATUS: &'static str = "environment.get_status";

pub const SESSIONS_LIST: &'static str = "sessions.list";
pub const SESSIONS_ENSURE_PRIMARY: &'static str = "sessions.ensure_primary";
pub const SESSIONS_EXECUTE_CELL: &'static str = "sessions.execute_cell";
pub const SESSIONS_INTERRUPT: &'static str = "sessions.interrupt";
pub const SESSIONS_RESTART: &'static str = "sessions.restart";
pub const SESSIONS_STOP: &'static str = "sessions.stop";
pub const SESSIONS_LIST_VARIABLES: &'static str = "sessions.list_variables";
pub const SESSIONS_GET_VARIABLE: &'static str = "sessions.get_variable";

} // verus!
