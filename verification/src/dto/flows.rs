//! Loaded flows as the API lists them.

use vstd::prelude::*;

verus! {

pub struct FlowDto {
    pub id: String,
    pub name: Option<String>,
    pub version: Option<String>,
}

pub struct FlowsResponse {
    pub flows: Vec<FlowDto>,
}

} // verus!
