//! What a message's debug trace reports: the flow, modules, prompts and timings.

use std::collections::HashMap;

use vstd::prelude::*;

use crate::values::JsonValue;

verus! {

pub struct TimelineStepDto {
    pub step: String,
    pub duration_ms: u64,
}

pub struct FlowDebugDto {
    pub flow_id: Option<String>,
    pub previous_node: Option<String>,
    pub current_node: Option<String>,
    pub paused_node: Option<String>,
    pub available_transitions: Vec<String>,
    pub is_end: bool,
    pub runtime_state: String,
}

pub struct ModuleDebugDto {
    pub active_module: Option<String>,
    pub conversation_entries: HashMap<String, String>,
}

pub struct PromptDebugDto {
    pub prompt_set: String,
    pub identity_name: String,
    pub identity_role: String,
    pub router_prompt: String,
    pub response_prompt: String,
}

pub struct RuntimeDebugDto {
    pub search_ms: u64,
    pub router_ms: u64,
    pub response_ms: u64,
    pub total_ms: u64,
    pub timeline: Vec<TimelineStepDto>,
}

pub struct JsonDebugDto {
    pub router_raw_json: String,
    pub response_raw_json: String,
    pub router_decision: JsonValue,
}

/// The query string of a message request: `debug` is off unless given.
pub struct MessageQuery {
    pub debug: bool,
}

impl MessageQuery {
    pub fn default() -> (q: MessageQuery)
        ensures
            !q.debug,
    {
        MessageQuery { debug: false }
    }
}

} // verus!
