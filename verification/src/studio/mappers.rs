//! Conversions between the studio's drafts and the shapes the API exchanges.
//! Each keeps every field, so that a draft and its response have one view.

use vstd::prelude::*;

use crate::companies::clone_strings;
use crate::dto::studio::{
    DraftCompanyResponse, DraftFlowDto, DraftKnowledgeResponse, DraftPromptResponse, FlowNodeDto,
    FlowTransitionDto, KnowledgeCategoryDto, KnowledgeDocumentDto, NodePositionDto,
    PromptTemplateDto,
};
use crate::studio::types::{
    clone_opt_str, DraftCompany, DraftFlow, DraftFlowNode, DraftFlowTransition, DraftKnowledge,
    DraftPromptSet, DraftPromptTemplate, KnowledgeCategory, KnowledgeDocument, NodePosition,
};
use crate::values::clone_json;

verus! {

pub fn company_to_dto(c: &DraftCompany) -> (r: DraftCompanyResponse)
    ensures
        r@ == c@,
{
    DraftCompanyResponse {
        id: c.id.clone(),
        name: c.name.clone(),
        description: clone_opt_str(&c.description),
        prompt_set: c.prompt_set.clone(),
        knowledge_source: c.knowledge_source.clone(),
        flows: clone_strings(&c.flows),
    }
}

pub fn company_from_dto(c: &DraftCompanyResponse) -> (r: DraftCompany)
    ensures
        r@ == c@,
{
    DraftCompany {
        id: c.id.clone(),
        name: c.name.clone(),
        description: clone_opt_str(&c.description),
        prompt_set: c.prompt_set.clone(),
        knowledge_source: c.knowledge_source.clone(),
        flows: clone_strings(&c.flows),
    }
}

fn node_to_dto(n: &DraftFlowNode) -> (r: FlowNodeDto)
    ensures
        r@ == n@,
{
    let mut transitions: Vec<FlowTransitionDto> = Vec::new();
    let mut i: usize = 0;
    while i < n.transitions.len()
        invariant
            i <= n.transitions@.len(),
            transitions@.len() == i,
            forall|j: int| 0 <= j < i ==> #[trigger] transitions@[j]@ == n.transitions@[j]@,
        decreases n.transitions@.len() - i,
    {
        let t = &n.transitions[i];
        transitions.push(FlowTransitionDto { action: t.action.clone(), target: t.target.clone() });
        i = i + 1;
    }
    let position = match &n.position {
        Some(p) => Some(NodePositionDto { x_bits: p.x_bits, y_bits: p.y_bits }),
        None => None,
    };
    let r = FlowNodeDto {
        id: n.id.clone(),
        node_type: n.node_type.clone(),
        payload: clone_json(&n.payload),
        transitions,
        position,
    };
    assert(r@.transitions =~= n@.transitions);
    r
}

fn node_from_dto(n: &FlowNodeDto) -> (r: DraftFlowNode)
    ensures
        r@ == n@,
{
    let mut transitions: Vec<DraftFlowTransition> = Vec::new();
    let mut i: usize = 0;
    while i < n.transitions.len()
        invariant
            i <= n.transitions@.len(),
            transitions@.len() == i,
            forall|j: int| 0 <= j < i ==> #[trigger] transitions@[j]@ == n.transitions@[j]@,
        decreases n.transitions@.len() - i,
    {
        let t = &n.transitions[i];
        transitions.push(DraftFlowTransition { action: t.action.clone(), target: t.target.clone() });
        i = i + 1;
    }
    let position = match &n.position {
        Some(p) => Some(NodePosition { x_bits: p.x_bits, y_bits: p.y_bits }),
        None => None,
    };
    let r = DraftFlowNode {
        id: n.id.clone(),
        node_type: n.node_type.clone(),
        payload: clone_json(&n.payload),
        transitions,
        position,
    };
    assert(r@.transitions =~= n@.transitions);
    r
}

pub fn flow_to_dto(f: &DraftFlow) -> (r: DraftFlowDto)
    ensures
        r@ == f@,
{
    let mut nodes: Vec<FlowNodeDto> = Vec::new();
    let mut i: usize = 0;
    while i < f.nodes.len()
        invariant
            i <= f.nodes@.len(),
            nodes@.len() == i,
            forall|j: int| 0 <= j < i ==> #[trigger] nodes@[j]@ == f.nodes@[j]@,
        decreases f.nodes@.len() - i,
    {
        nodes.push(node_to_dto(&f.nodes[i]));
        i = i + 1;
    }
    let r = DraftFlowDto {
        id: f.id.clone(),
        name: clone_opt_str(&f.name),
        version: f.version,
        initial: f.initial.clone(),
        nodes,
    };
    assert(r@.nodes =~= f@.nodes);
    r
}

pub fn flow_from_dto(f: &DraftFlowDto) -> (r: DraftFlow)
    ensures
        r@ == f@,
{
    let mut nodes: Vec<DraftFlowNode> = Vec::new();
    let mut i: usize = 0;
    while i < f.nodes.len()
        invariant
            i <= f.nodes@.len(),
            nodes@.len() == i,
            forall|j: int| 0 <= j < i ==> #[trigger] nodes@[j]@ == f.nodes@[j]@,
        decreases f.nodes@.len() - i,
    {
        nodes.push(node_from_dto(&f.nodes[i]));
        i = i + 1;
    }
    let r = DraftFlow {
        id: f.id.clone(),
        name: clone_opt_str(&f.name),
        version: f.version,
        initial: f.initial.clone(),
        nodes,
    };
    assert(r@.nodes =~= f@.nodes);
    r
}

fn doc_to_dto(d: &KnowledgeDocument) -> (r: KnowledgeDocumentDto)
    ensures
        r@ == d@,
{
    KnowledgeDocumentDto {
        id: d.id.clone(),
        category_id: d.category_id.clone(),
        title: d.title.clone(),
        section: d.section.clone(),
        content: d.content.clone(),
        metadata: clone_json(&d.metadata),
    }
}

fn doc_from_dto(d: &KnowledgeDocumentDto) -> (r: KnowledgeDocument)
    ensures
        r@ == d@,
{
    KnowledgeDocument {
        id: d.id.clone(),
        category_id: d.category_id.clone(),
        title: d.title.clone(),
        section: d.section.clone(),
        content: d.content.clone(),
        metadata: clone_json(&d.metadata),
    }
}

pub fn knowledge_to_dto(k: &DraftKnowledge) -> (r: DraftKnowledgeResponse)
    ensures
        r@ == k@,
{
    let mut categories: Vec<KnowledgeCategoryDto> = Vec::new();
    let mut i: usize = 0;
    while i < k.categories.len()
        invariant
            i <= k.categories@.len(),
            categories@.len() == i,
            forall|j: int| 0 <= j < i ==> #[trigger] categories@[j]@ == k.categories@[j]@,
        decreases k.categories@.len() - i,
    {
        let c = &k.categories[i];
        categories.push(KnowledgeCategoryDto { id: c.id.clone(), name: c.name.clone() });
        i = i + 1;
    }
    let mut documents: Vec<KnowledgeDocumentDto> = Vec::new();
    let mut i: usize = 0;
    while i < k.documents.len()
        invariant
            i <= k.documents@.len(),
            documents@.len() == i,
            forall|j: int| 0 <= j < i ==> #[trigger] documents@[j]@ == k.documents@[j]@,
        decreases k.documents@.len() - i,
    {
        documents.push(doc_to_dto(&k.documents[i]));
        i = i + 1;
    }
    let r = DraftKnowledgeResponse { categories, documents };
    assert(r@.categories =~= k@.categories);
    assert(r@.documents =~= k@.documents);
    r
}

pub fn knowledge_from_dto(k: &DraftKnowledgeResponse) -> (r: DraftKnowledge)
    ensures
        r@ == k@,
{
    let mut categories: Vec<KnowledgeCategory> = Vec::new();
    let mut i: usize = 0;
    while i < k.categories.len()
        invariant
            i <= k.categories@.len(),
            categories@.len() == i,
            forall|j: int| 0 <= j < i ==> #[trigger] categories@[j]@ == k.categories@[j]@,
        decreases k.categories@.len() - i,
    {
        let c = &k.categories[i];
        categories.push(KnowledgeCategory { id: c.id.clone(), name: c.name.clone() });
        i = i + 1;
    }
    let mut documents: Vec<KnowledgeDocument> = Vec::new();
    let mut i: usize = 0;
    while i < k.documents.len()
        invariant
            i <= k.documents@.len(),
            documents@.len() == i,
            forall|j: int| 0 <= j < i ==> #[trigger] documents@[j]@ == k.documents@[j]@,
        decreases k.documents@.len() - i,
    {
        documents.push(doc_from_dto(&k.documents[i]));
        i = i + 1;
    }
    let r = DraftKnowledge { categories, documents };
    assert(r@.categories =~= k@.categories);
    assert(r@.documents =~= k@.documents);
    r
}

pub fn template_to_dto(t: &DraftPromptTemplate) -> (r: PromptTemplateDto)
    ensures
        r@ == t@,
{
    PromptTemplateDto {
        system: t.system.clone(),
        developer: t.developer.clone(),
        assembly: t.assembly.clone(),
    }
}

pub fn template_from_dto(t: &PromptTemplateDto) -> (r: DraftPromptTemplate)
    ensures
        r@ == t@,
{
    DraftPromptTemplate {
        system: t.system.clone(),
        developer: t.developer.clone(),
        assembly: t.assembly.clone(),
    }
}

pub fn prompt_to_dto(p: &DraftPromptSet) -> (r: DraftPromptResponse)
    ensures
        r@ == p@,
{
    DraftPromptResponse {
        id: p.id.clone(),
        name: p.name.clone(),
        version: p.version.clone(),
        identity: clone_json(&p.identity),
        router: template_to_dto(&p.router),
        response: template_to_dto(&p.response),
    }
}

pub fn prompt_from_dto(p: &DraftPromptResponse) -> (r: DraftPromptSet)
    ensures
        r@ == p@,
{
    DraftPromptSet {
        id: p.id.clone(),
        name: p.name.clone(),
        version: p.version.clone(),
        identity: clone_json(&p.identity),
        router: template_from_dto(&p.router),
        response: template_from_dto(&p.response),
    }
}

} // verus!
