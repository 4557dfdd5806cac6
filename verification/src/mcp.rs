//! The shapes of the AI endpoint's tools: the safe-inspection parameters and
//! the hints that mark a tool as a bounded, closed-world read.
use vstd::prelude::*;

use crate::text::string_of;

verus! {

/// The parameters of the variable-inspection tool.
#[derive(Debug)]
pub struct GetVariableParams {
    /// Stable CoKernel Project identifier.
    pub project_id: String,
    /// Stable CoKernel Notebook identifier.
    pub notebook_id: String,
    /// One Python identifier. Expressions are not accepted by the v1 safe-inspection API.
    pub name: String,
}

/// The hints a tool announces about its effects.
#[derive(Debug)]
pub struct ToolHints {
    pub title: Option<String>,
    pub read_only_hint: Option<bool>,
    pub destructive_hint: Option<bool>,
    pub idempotent_hint: Option<bool>,
    pub open_world_hint: Option<bool>,
}

/// The hints of a bounded, closed-world read: read-only, not destructive,
/// idempotent, closed world.
pub fn safe_read_annotations(title: &str) -> (r: ToolHints)
    ensures
        r.title matches Some(t) && t@ == title@,
        r.read_only_hint == Some(true),
        r.destructive_hint == Some(false),
        r.idempotent_hint == Some(true),
        r.open_world_hint == Some(false),
{
    ToolHints {
        title: Some(string_of(title)),
        read_only_hint: Some(true),
        destructive_hint: Some(false),
        idempotent_hint: Some(true),
        open_world_hint: Some(false),
    }
}

} // verus!
