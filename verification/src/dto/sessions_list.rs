//! The list of live sessions.

use vstd::prelude::*;

use crate::dto::session::{ActiveModuleDto, RuntimeStateDto};

verus! {

pub struct SessionListItemDto {
    pub session_id: String,
    pub flow_id: Option<String>,
    pub prompt_set: String,
    pub current_node: Option<String>,
    pub runtime_state: RuntimeStateDto,
    pub active_module: Option<ActiveModuleDto>,
    pub created_at: Option<String>,
    pub last_activity: Option<String>,
}

pub struct SessionsListResponse {
    pub sessions: Vec<SessionListItemDto>,
}

} // verus!
