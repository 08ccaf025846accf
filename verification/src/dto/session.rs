//! Sessions: their runtime state, the active module, and how one is created.

use vstd::prelude::*;

use crate::values::{json_view, JsonValue, JsonView};

verus! {

/// Where a session stands; written in snake case on the wire.
pub enum RuntimeStateDto {
    Idle,
    Flow,
    Paused,
    Module,
    Finished,
}

impl RuntimeStateDto {
    /// The name of the state as the API writes it.
    pub open spec fn spec_name(self) -> Seq<char> {
        match self {
            RuntimeStateDto::Idle => "idle"@,
            RuntimeStateDto::Flow => "flow"@,
            RuntimeStateDto::Paused => "paused"@,
            RuntimeStateDto::Module => "module"@,
            RuntimeStateDto::Finished => "finished"@,
        }
    }

    pub fn name(&self) -> (s: String)
        ensures
            s@ == self.spec_name(),
    {
        let r = match self {
            RuntimeStateDto::Idle => "idle",
            RuntimeStateDto::Flow => "flow",
            RuntimeStateDto::Paused => "paused",
            RuntimeStateDto::Module => "module",
            RuntimeStateDto::Finished => "finished",
        };
        r.to_string()
    }
}

pub struct CreateSessionRequest {
    pub flow_id: String,
    pub client_source_path: String,
    pub prompt_set: Option<String>,
}

pub struct ActiveModuleDto {
    pub module_id: String,
    pub section: Option<String>,
}

/// The prompt set a session records under `prompt_set_id`: the stored value
/// when it is a string, else the default set.
pub open spec fn spec_prompt_set_of(stored: Option<JsonView>, default_set: Seq<char>) -> Seq<char> {
    match stored {
        Some(JsonView::String(s)) => s,
        _ => default_set,
    }
}

/// Picks the prompt set of a session from the value stored under its
/// `prompt_set_id` metadata key.
pub fn prompt_set_of(stored: Option<&JsonValue>, default_set: &str) -> (r: String)
    ensures
        r@ == spec_prompt_set_of(
            match stored {
                Some(v) => Some(json_view(*v)),
                None => None,
            },
            default_set@,
        ),
{
    match stored {
        Some(JsonValue::String(s)) => s.clone(),
        _ => default_set.to_string(),
    }
}

} // verus!
