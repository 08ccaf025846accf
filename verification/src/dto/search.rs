//! Knowledge search requests.

use vstd::prelude::*;

verus! {

/// How many results a search returns when the request does not say.
pub fn default_top_k() -> (k: usize)
    ensures
        k == 5,
{
    5
}

pub struct SessionSearchRequest {
    pub query: String,
    pub module_ids: Vec<String>,
    pub top_k: usize,
}

pub struct SearchInspectRequest {
    pub query: String,
    pub module_ids: Vec<String>,
    pub top_k: usize,
    pub company_id: Option<String>,
}

} // verus!
