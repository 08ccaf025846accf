//! The loaded flows as the API lists them.

use vstd::prelude::*;

use crate::dto::flows::{FlowDto, FlowsResponse};
use crate::errors::{ApiError, ApiErrorCode, STATUS_INTERNAL};
use crate::state::FlowInfo;
use crate::studio::types::{clone_opt_str, opt_str_view};

verus! {

/// The loaded flows, in order, with their names and versions.
pub fn list_flows(flows: &[FlowInfo]) -> (r: FlowsResponse)
    ensures
        r.flows@.len() == flows@.len(),
        forall|i: int| 0 <= i < flows@.len() ==> (#[trigger] r.flows@[i]).id@ == flows@[i].id@
            && opt_str_view(r.flows@[i].name) == opt_str_view(flows@[i].name)
            && opt_str_view(r.flows@[i].version) == opt_str_view(flows@[i].version),
{
    let mut out: Vec<FlowDto> = Vec::new();
    let mut i: usize = 0;
    while i < flows.len()
        invariant
            i <= flows@.len(),
            out@.len() == i,
            forall|j: int| 0 <= j < i ==> (#[trigger] out@[j]).id@ == flows@[j].id@
                && opt_str_view(out@[j].name) == opt_str_view(flows@[j].name)
                && opt_str_view(out@[j].version) == opt_str_view(flows@[j].version),
        decreases flows@.len() - i,
    {
        let f = &flows[i];
        out.push(FlowDto { id: f.id.clone(), name: clone_opt_str(&f.name), version: clone_opt_str(&f.version) });
        i = i + 1;
    }
    FlowsResponse { flows: out }
}

/// The id of the first loaded flow, which searches outside a session run in.
pub fn first_flow_id(flows: &[FlowInfo]) -> (r: Option<String>)
    ensures
        flows@.len() == 0 ==> r is None,
        flows@.len() > 0 ==> (r matches Some(id) && id@ == flows@[0].id@),
{
    if flows.len() == 0 {
        None
    } else {
        Some(flows[0].id.clone())
    }
}

/// The flow that a search outside a session runs in: the first loaded one;
/// an internal error when none is loaded.
pub fn search_flow_id(flows: &[FlowInfo]) -> (r: Result<String, ApiError>)
    ensures
        flows@.len() == 0 ==> (r matches Err(e) && e.code == ApiErrorCode::InternalError
            && e.status == STATUS_INTERNAL && e.message@ == "no flows loaded"@),
        flows@.len() > 0 ==> (r matches Ok(id) && id@ == flows@[0].id@),
{
    match first_flow_id(flows) {
        Some(id) => Ok(id),
        None => Err(ApiError::internal("no flows loaded".to_string())),
    }
}

} // verus!
