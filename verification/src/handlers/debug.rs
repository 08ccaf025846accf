//! The parts of a message's debug report that come straight from its trace:
//! the flow, the modules, the prompts, the timings and the raw JSON.

use std::collections::HashMap;

use vstd::prelude::*;

use crate::dto::debug::{FlowDebugDto, JsonDebugDto, ModuleDebugDto, PromptDebugDto, RuntimeDebugDto, TimelineStepDto};
use crate::studio::types::opt_str_view;
use crate::values::JsonValue;

verus! {

/// Where the flow stood when the message was handled, as the trace records it.
pub struct FlowTrace {
    pub flow_id: Option<String>,
    pub previous_node: Option<String>,
    pub current_node: Option<String>,
    pub paused_node: Option<String>,
    pub available_transitions: Vec<String>,
    pub is_end: bool,
    pub runtime_state: String,
}

/// The flow part of the debug report: the trace's fields as they are.
pub fn flow_debug(t: FlowTrace) -> (d: FlowDebugDto)
    ensures
        opt_str_view(d.flow_id) == opt_str_view(t.flow_id),
        opt_str_view(d.previous_node) == opt_str_view(t.previous_node),
        opt_str_view(d.current_node) == opt_str_view(t.current_node),
        opt_str_view(d.paused_node) == opt_str_view(t.paused_node),
        d.available_transitions@ == t.available_transitions@,
        d.is_end == t.is_end,
        d.runtime_state@ == t.runtime_state@,
{
    FlowDebugDto {
        flow_id: t.flow_id,
        previous_node: t.previous_node,
        current_node: t.current_node,
        paused_node: t.paused_node,
        available_transitions: t.available_transitions,
        is_end: t.is_end,
        runtime_state: t.runtime_state,
    }
}

/// The modules part: the active module and what the conversation recorded.
pub fn module_debug(active_module: Option<String>, conversation_entries: HashMap<String, String>) -> (d: ModuleDebugDto)
    ensures
        opt_str_view(d.active_module) == opt_str_view(active_module),
        d.conversation_entries == conversation_entries,
{
    ModuleDebugDto { active_module, conversation_entries }
}

/// The prompts part: the prompt set, who speaks, and the two prompts sent.
pub fn prompt_debug(prompt_set: String, identity_name: String, identity_role: String, router_prompt: String, response_prompt: String) -> (d: PromptDebugDto)
    ensures
        d.prompt_set@ == prompt_set@,
        d.identity_name@ == identity_name@,
        d.identity_role@ == identity_role@,
        d.router_prompt@ == router_prompt@,
        d.response_prompt@ == response_prompt@,
{
    PromptDebugDto { prompt_set, identity_name, identity_role, router_prompt, response_prompt }
}

/// The timings part: the three stages, the total, and each step of the timeline in order.
pub fn runtime_debug(search_ms: u64, router_ms: u64, response_ms: u64, total_ms: u64, steps: Vec<(String, u64)>) -> (d: RuntimeDebugDto)
    ensures
        d.search_ms == search_ms,
        d.router_ms == router_ms,
        d.response_ms == response_ms,
        d.total_ms == total_ms,
        d.timeline@.len() == steps@.len(),
        forall|i: int| 0 <= i < steps@.len() ==> (#[trigger] d.timeline@[i]).step@ == steps@[i].0@
            && d.timeline@[i].duration_ms == steps@[i].1,
{
    let mut timeline: Vec<TimelineStepDto> = Vec::new();
    let mut rest = steps;
    let ghost all = rest@;
    let n = rest.len();
    let mut i: usize = 0;
    while i < n
        invariant
            n == all.len(),
            i <= n,
            rest@ == all.subrange(i as int, n as int),
            timeline@.len() == i,
            forall|j: int| 0 <= j < i ==> (#[trigger] timeline@[j]).step@ == all[j].0@
                && timeline@[j].duration_ms == all[j].1,
        decreases n - i,
    {
        let (step, duration_ms) = rest.remove(0);
        assert(rest@ =~= all.subrange(i + 1, n as int));
        timeline.push(TimelineStepDto { step, duration_ms });
        i = i + 1;
    }
    RuntimeDebugDto { search_ms, router_ms, response_ms, total_ms, timeline }
}

/// The raw JSON part: what the router and the responder answered, and the
/// router's decision (`null` when it has no JSON form).
pub fn json_debug(router_raw_json: String, response_raw_json: String, router_decision: Option<JsonValue>) -> (d: JsonDebugDto)
    ensures
        d.router_raw_json@ == router_raw_json@,
        d.response_raw_json@ == response_raw_json@,
        d.router_decision@ == match router_decision {
            Some(j) => j@,
            None => crate::values::JsonView::Null,
        },
{
    let decision = match router_decision {
        Some(j) => j,
        None => JsonValue::Null,
    };
    JsonDebugDto { router_raw_json, response_raw_json, router_decision: decision }
}

} // verus!
