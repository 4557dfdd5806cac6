//! Supervised Execution Sessions: what the Runtime accepts from a worker and
//! the decisions that drive one Session.
pub mod actor;
pub mod error;
pub mod evidence;
pub mod handshake;
pub mod inspection;
pub mod procfs;
pub mod transaction;
pub mod supervisor;
