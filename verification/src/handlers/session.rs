//! Starting a session: the checks on its request, and where its modules come from.

use vstd::prelude::*;
use vstd::string::StringExecFns;

use crate::config::ApiConfig;
use crate::errors::{ApiError, ApiErrorCode, STATUS_NOT_FOUND};
use crate::handlers::studio::rejects;
use crate::paths::path_join;
use crate::state::{has_flow, FlowRegistry};
use crate::text::{trim, trim_str};

verus! {

/// A session can only run a loaded flow.
pub fn check_flow_loaded(flows: &FlowRegistry, flow_id: &str) -> (r: Result<(), ApiError>)
    ensures
        has_flow(flows@, flow_id@) ==> r is Ok,
        !has_flow(flows@, flow_id@) ==> (r matches Err(e) && e.code == ApiErrorCode::FlowNotFound
            && e.status == STATUS_NOT_FOUND && e.message@ == "Flow not found: "@ + flow_id@),
{
    if flows.contains(flow_id) {
        Ok(())
    } else {
        Err(ApiError::flow_not_found(flow_id))
    }
}

/// The error for a client file that does not exist at the resolved path.
pub fn client_source_missing(path: &str) -> (e: ApiError)
    ensures
        rejects(e, "client source not found: "@ + path@),
{
    ApiError::invalid_request("client source not found: ".to_string().concat(path))
}

/// The modules a new session loads, each with the file it loads from under the data root.
pub fn module_sources(config: &ApiConfig) -> (r: Vec<(String, String)>)
    ensures
        r@.len() == config.default_modules@.len(),
        forall|i: int| 0 <= i < r@.len() ==> (#[trigger] r@[i]).0@ == config.default_modules@[i].module_id@
            && r@[i].1@ == path_join(config.data_root@, config.default_modules@[i].path@),
{
    let mut r: Vec<(String, String)> = Vec::new();
    let mut i: usize = 0;
    while i < config.default_modules.len()
        invariant
            i <= config.default_modules@.len(),
            r@.len() == i,
            forall|j: int| 0 <= j < i ==> (#[trigger] r@[j]).0@ == config.default_modules@[j].module_id@
                && r@[j].1@ == path_join(config.data_root@, config.default_modules@[j].path@),
        decreases config.default_modules@.len() - i,
    {
        let m = &config.default_modules[i];
        r.push((m.module_id.clone(), config.resolve_data_path(m.path.as_str())));
        i = i + 1;
    }
    r
}

/// A message must have some text.
pub fn check_message(message: &str) -> (r: Result<(), ApiError>)
    ensures
        trim(message@).len() == 0 ==> (r matches Err(e) && rejects(e, "message must not be empty"@)),
        trim(message@).len() != 0 ==> r is Ok,
{
    let t = trim_str(message);
    if t.unicode_len() == 0 {
        return Err(ApiError::invalid_request("message must not be empty".to_string()));
    }
    Ok(())
}

/// Whether a message asks for its debug trace: by the `debug` query flag, or
/// by an `x-debug-mode` header of 1, true, yes or on (in any letter case).
pub fn debug_enabled(query_debug: bool, header: Option<&str>) -> (b: bool)
    ensures
        b == (query_debug || match header {
            Some(h) => crate::config::is_truthy(h@),
            None => false,
        }),
{
    if query_debug {
        return true;
    }
    match header {
        Some(h) => crate::config::truthy(h),
        None => false,
    }
}

/// Whether a message's answer carries the router's decision: when it is
/// debugged, or when the configuration asks for it.
pub fn include_decision(debug: bool, config: &ApiConfig) -> (b: bool)
    ensures
        b == (debug || config.include_router_decision),
{
    debug || config.include_router_decision
}

} // verus!
