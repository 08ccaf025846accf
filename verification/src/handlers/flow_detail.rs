//! A loaded flow in detail, and as a graph of edges.

use vstd::prelude::*;

use crate::dto::flow_detail::{FlowDetailResponse, FlowEdgeDto, FlowGraphEdgeDto, FlowGraphResponse, FlowNodeDto, FlowStatsDto};
use crate::studio::convert::{ExportNode, FlowExport};
use crate::studio::types::opt_str_view;
use crate::values::clone_json;

verus! {

/// A node of the detail: the exported node's fields and its transitions in order.
pub open spec fn node_matches(d: FlowNodeDto, n: ExportNode) -> bool {
    &&& d.id@ == n.id@
    &&& d.node_type@ == n.node_type@
    &&& d.payload@ == n.payload@
    &&& d.transitions@.len() == n.transitions@.len()
    &&& forall|k: int| 0 <= k < n.transitions@.len() ==> (#[trigger] d.transitions@[k]).action@ == n.transitions@[k].action@
        && d.transitions@[k].target@ == n.transitions@[k].target@
}

fn node_dto(n: &ExportNode) -> (d: FlowNodeDto)
    ensures
        node_matches(d, *n),
{
    let mut transitions: Vec<FlowEdgeDto> = Vec::new();
    let mut k: usize = 0;
    while k < n.transitions.len()
        invariant
            k <= n.transitions@.len(),
            transitions@.len() == k,
            forall|j: int| 0 <= j < k ==> (#[trigger] transitions@[j]).action@ == n.transitions@[j].action@
                && transitions@[j].target@ == n.transitions@[j].target@,
        decreases n.transitions@.len() - k,
    {
        transitions.push(FlowEdgeDto { action: n.transitions[k].action.clone(), target: n.transitions[k].target.clone() });
        k = k + 1;
    }
    FlowNodeDto { id: n.id.clone(), node_type: n.node_type.clone(), payload: clone_json(&n.payload), transitions }
}

fn node_dtos(export: &FlowExport) -> (r: Vec<FlowNodeDto>)
    ensures
        r@.len() == export.nodes@.len(),
        forall|i: int| 0 <= i < r@.len() ==> node_matches(#[trigger] r@[i], export.nodes@[i]),
{
    let mut r: Vec<FlowNodeDto> = Vec::new();
    let mut i: usize = 0;
    while i < export.nodes.len()
        invariant
            i <= export.nodes@.len(),
            r@.len() == i,
            forall|j: int| 0 <= j < i ==> node_matches(#[trigger] r@[j], export.nodes@[j]),
        decreases export.nodes@.len() - i,
    {
        r.push(node_dto(&export.nodes[i]));
        i = i + 1;
    }
    r
}

/// A flow the runtime exported, as the API details it.
pub fn map_flow(export: &FlowExport) -> (r: FlowDetailResponse)
    ensures
        r.id@ == export.id@,
        opt_str_view(r.name) == opt_str_view(export.name),
        r.version == export.version,
        r.initial@ == export.initial@,
        r.stats.node_count == export.stats.node_count,
        r.stats.end_node_count == export.stats.end_node_count,
        r.nodes@.len() == export.nodes@.len(),
        forall|i: int| 0 <= i < r.nodes@.len() ==> node_matches(#[trigger] r.nodes@[i], export.nodes@[i]),
{
    FlowDetailResponse {
        id: export.id.clone(),
        name: crate::studio::types::clone_opt_str(&export.name),
        version: export.version,
        initial: export.initial.clone(),
        stats: FlowStatsDto { node_count: export.stats.node_count, end_node_count: export.stats.end_node_count },
        nodes: node_dtos(export),
    }
}

pub struct EdgeView {
    pub from: Seq<char>,
    pub to: Seq<char>,
    pub action: Seq<char>,
}

/// The edges of a flow: one for each transition of each node, node by node.
pub open spec fn edges_of(nodes: Seq<ExportNode>) -> Seq<EdgeView>
    decreases nodes.len(),
{
    if nodes.len() == 0 {
        Seq::empty()
    } else {
        let n = nodes.last();
        edges_of(nodes.drop_last()) + n.transitions@.map_values(|t: crate::studio::convert::ExportTransition|
            EdgeView { from: n.id@, to: t.target@, action: t.action@ })
    }
}

pub open spec fn edge_view(e: FlowGraphEdgeDto) -> EdgeView {
    EdgeView { from: e.from@, to: e.to@, action: e.action@ }
}

/// A flow the runtime exported, as a graph: its nodes and the edges of its transitions.
pub fn flow_graph(export: &FlowExport) -> (r: FlowGraphResponse)
    ensures
        r.flow_id@ == export.id@,
        r.initial@ == export.initial@,
        r.nodes@.len() == export.nodes@.len(),
        forall|i: int| 0 <= i < r.nodes@.len() ==> node_matches(#[trigger] r.nodes@[i], export.nodes@[i]),
        r.edges@.map_values(|e: FlowGraphEdgeDto| edge_view(e)) == edges_of(export.nodes@),
{
    let mut edges: Vec<FlowGraphEdgeDto> = Vec::new();
    let mut i: usize = 0;
    while i < export.nodes.len()
        invariant
            i <= export.nodes@.len(),
            edges@.map_values(|e: FlowGraphEdgeDto| edge_view(e)) == edges_of(export.nodes@.take(i as int)),
        decreases export.nodes@.len() - i,
    {
        let node = &export.nodes[i];
        let ghost base = edges@.map_values(|e: FlowGraphEdgeDto| edge_view(e));
        let ghost add = node.transitions@.map_values(|t: crate::studio::convert::ExportTransition|
            EdgeView { from: node.id@, to: t.target@, action: t.action@ });
        let mut k: usize = 0;
        while k < node.transitions.len()
            invariant
                k <= node.transitions@.len(),
                node == &export.nodes@[i as int],
                add == node.transitions@.map_values(|t: crate::studio::convert::ExportTransition|
                    EdgeView { from: node.id@, to: t.target@, action: t.action@ }),
                edges@.map_values(|e: FlowGraphEdgeDto| edge_view(e)) == base + add.take(k as int),
            decreases node.transitions@.len() - k,
        {
            let t = &node.transitions[k];
            let ghost before = edges@;
            let e = FlowGraphEdgeDto { from: node.id.clone(), to: t.target.clone(), action: t.action.clone() };
            assert(edge_view(e) == add[k as int]);
            edges.push(e);
            assert(edges@.map_values(|e: FlowGraphEdgeDto| edge_view(e))
                =~= before.map_values(|e: FlowGraphEdgeDto| edge_view(e)).push(add[k as int]));
            assert(add.take(k + 1) =~= add.take(k as int).push(add[k as int]));
            assert(edges@.map_values(|e: FlowGraphEdgeDto| edge_view(e)) =~= base + add.take(k + 1));
            k = k + 1;
        }
        assert(add.take(node.transitions@.len() as int) =~= add);
        assert(export.nodes@.take(i + 1).drop_last() =~= export.nodes@.take(i as int));
        i = i + 1;
    }
    assert(export.nodes@.take(export.nodes@.len() as int) =~= export.nodes@);
    let detail = map_flow(export);
    FlowGraphResponse { flow_id: detail.id, initial: detail.initial, nodes: detail.nodes, edges }
}

} // verus!
