use vstd::prelude::*;

pub mod domain;
pub mod ids;
pub mod json;
pub mod mcp;
pub mod paths;
pub mod project;
pub mod protocol;
pub mod service;
pub mod session;
pub mod text;
pub mod uv;
pub mod worker;

verus! {
} // verus!
