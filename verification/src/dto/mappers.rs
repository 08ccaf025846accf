//! Small constructors shared by the session handlers.

use vstd::prelude::*;

use crate::dto::session::ActiveModuleDto;
use crate::studio::types::opt_str_view;

verus! {

/// The active module of a session, as the API reports it.
pub fn map_active_module(module_id: &str, section: Option<String>) -> (r: ActiveModuleDto)
    ensures
        r.module_id@ == module_id@,
        opt_str_view(r.section) == opt_str_view(section),
{
    ActiveModuleDto { module_id: module_id.to_string(), section }
}

} // verus!
