//! One loaded flow in detail: its nodes, their transitions, and its graph.

use vstd::prelude::*;

use crate::values::JsonValue;

verus! {

pub struct FlowStatsDto {
    pub node_count: usize,
    pub end_node_count: usize,
}

pub struct FlowEdgeDto {
    pub action: String,
    pub target: String,
}

pub struct FlowNodeDto {
    pub id: String,
    pub node_type: String,
    pub payload: JsonValue,
    pub transitions: Vec<FlowEdgeDto>,
}

pub struct FlowDetailResponse {
    pub id: String,
    pub name: Option<String>,
    pub version: Option<u32>,
    pub initial: String,
    pub stats: FlowStatsDto,
    pub nodes: Vec<FlowNodeDto>,
}

pub struct FlowGraphEdgeDto {
    pub from: String,
    pub to: String,
    pub action: String,
}

pub struct FlowGraphResponse {
    pub flow_id: String,
    pub initial: String,
    pub nodes: Vec<FlowNodeDto>,
    pub edges: Vec<FlowGraphEdgeDto>,
}

} // verus!
