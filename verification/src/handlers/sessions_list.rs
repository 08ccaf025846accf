//! The live sessions as the API lists them.

use vstd::prelude::*;

use crate::dto::mappers::map_active_module;
use crate::dto::session::RuntimeStateDto;
use crate::dto::sessions_list::SessionListItemDto;
use crate::studio::types::opt_str_view;

verus! {

/// A live session as the runtime summarises it; times already written as RFC 3339.
pub struct SessionSummary {
    pub session_id: String,
    pub flow_id: Option<String>,
    pub prompt_set: String,
    pub current_node: Option<String>,
    pub runtime_state: RuntimeStateDto,
    pub active_module: Option<String>,
    pub created_at: Option<String>,
    pub last_activity: Option<String>,
}

/// A live session in the list; its active module is named without a section.
pub fn session_list_item(s: SessionSummary) -> (r: SessionListItemDto)
    ensures
        r.session_id@ == s.session_id@,
        opt_str_view(r.flow_id) == opt_str_view(s.flow_id),
        r.prompt_set@ == s.prompt_set@,
        opt_str_view(r.current_node) == opt_str_view(s.current_node),
        r.runtime_state == s.runtime_state,
        match s.active_module {
            Some(m) => r.active_module matches Some(a) && a.module_id@ == m@ && a.section is None,
            None => r.active_module is None,
        },
        opt_str_view(r.created_at) == opt_str_view(s.created_at),
        opt_str_view(r.last_activity) == opt_str_view(s.last_activity),
{
    let active_module = match &s.active_module {
        Some(m) => Some(map_active_module(m.as_str(), None)),
        None => None,
    };
    SessionListItemDto {
        session_id: s.session_id,
        flow_id: s.flow_id,
        prompt_set: s.prompt_set,
        current_node: s.current_node,
        runtime_state: s.runtime_state,
        active_module,
        created_at: s.created_at,
        last_activity: s.last_activity,
    }
}

} // verus!
