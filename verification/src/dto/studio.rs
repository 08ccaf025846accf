//! The studio's requests and responses. Those that carry a draft share the
//! draft's view, so that a mapping between the two is stated as equality.

use vstd::prelude::*;

use crate::companies::strings_view;
use crate::studio::types::{
    opt_str_view, CategoryView, CompanyView, DocumentView, FlowView, KnowledgeView,
    NodeView, PromptSetView, TemplateView, TransitionView,
};
use crate::values::{json_view, JsonValue};

verus! {

pub struct StudioProjectDto {
    pub id: String,
    pub name: String,
    pub description: Option<String>,
    pub dirty: bool,
    pub published_version: u32,
    pub edited_at: Option<String>,
}

pub struct StudioProjectsResponse {
    pub projects: Vec<StudioProjectDto>,
}

pub struct StudioProjectDetailResponse {
    pub id: String,
    pub name: String,
    pub description: Option<String>,
    pub prompt_set: String,
    pub knowledge_source: String,
    pub flows: Vec<String>,
    pub dirty: bool,
    pub published_version: u32,
    pub edited_at: Option<String>,
    pub bootstrapped_at: Option<String>,
}

pub struct CreateProjectRequest {
    pub id: String,
    pub name: String,
    pub description: Option<String>,
    pub prompt_set: Option<String>,
    pub knowledge_source: Option<String>,
    pub flows: Option<Vec<String>>,
}

pub struct UpdateProjectRequest {
    pub name: Option<String>,
    pub description: Option<String>,
}

pub struct UpdateCompanyRequest {
    pub id: String,
    pub name: String,
    pub description: Option<String>,
    pub prompt_set: String,
    pub knowledge_source: String,
    pub flows: Vec<String>,
}

pub struct DraftCompanyResponse {
    pub id: String,
    pub name: String,
    pub description: Option<String>,
    pub prompt_set: String,
    pub knowledge_source: String,
    pub flows: Vec<String>,
}

impl View for DraftCompanyResponse {
    type V = CompanyView;

    open spec fn view(&self) -> CompanyView {
        CompanyView {
            id: self.id@,
            name: self.name@,
            description: opt_str_view(self.description),
            prompt_set: self.prompt_set@,
            knowledge_source: self.knowledge_source@,
            flows: strings_view(self.flows@),
        }
    }
}

/// A node's place on the canvas; each coordinate is the IEEE-754 bit pattern of a `f64`.
pub struct NodePositionDto {
    pub x_bits: u64,
    pub y_bits: u64,
}

pub open spec fn position_dto_view(p: Option<NodePositionDto>) -> Option<(u64, u64)> {
    match p {
        Some(p) => Some((p.x_bits, p.y_bits)),
        None => None,
    }
}

pub struct FlowTransitionDto {
    pub action: String,
    pub target: String,
}

impl View for FlowTransitionDto {
    type V = TransitionView;

    open spec fn view(&self) -> TransitionView {
        TransitionView { action: self.action@, target: self.target@ }
    }
}

pub open spec fn transition_dtos_view(s: Seq<FlowTransitionDto>) -> Seq<TransitionView> {
    s.map_values(|t: FlowTransitionDto| t@)
}

pub struct FlowNodeDto {
    pub id: String,
    pub node_type: String,
    pub payload: JsonValue,
    pub transitions: Vec<FlowTransitionDto>,
    pub position: Option<NodePositionDto>,
}

impl View for FlowNodeDto {
    type V = NodeView;

    open spec fn view(&self) -> NodeView {
        NodeView {
            id: self.id@,
            node_type: self.node_type@,
            payload: json_view(self.payload),
            transitions: transition_dtos_view(self.transitions@),
            position: position_dto_view(self.position),
        }
    }
}

pub open spec fn node_dtos_view(s: Seq<FlowNodeDto>) -> Seq<NodeView> {
    s.map_values(|n: FlowNodeDto| n@)
}

pub struct DraftFlowDto {
    pub id: String,
    pub name: Option<String>,
    pub version: u32,
    pub initial: String,
    pub nodes: Vec<FlowNodeDto>,
}

impl View for DraftFlowDto {
    type V = FlowView;

    open spec fn view(&self) -> FlowView {
        FlowView {
            id: self.id@,
            name: opt_str_view(self.name),
            version: self.version,
            initial: self.initial@,
            nodes: node_dtos_view(self.nodes@),
        }
    }
}

pub struct CreateFlowRequest {
    pub id: String,
    pub name: Option<String>,
    pub initial: Option<String>,
}

pub struct ValidationIssueDto {
    pub rule: String,
    pub message: String,
    pub node_id: Option<String>,
    pub action: Option<String>,
    pub target: Option<String>,
}

pub struct FlowValidationResponse {
    pub valid: bool,
    pub issues: Vec<ValidationIssueDto>,
}

pub struct KnowledgeCategoryDto {
    pub id: String,
    pub name: String,
}

impl View for KnowledgeCategoryDto {
    type V = CategoryView;

    open spec fn view(&self) -> CategoryView {
        CategoryView { id: self.id@, name: self.name@ }
    }
}

pub struct KnowledgeDocumentDto {
    pub id: String,
    pub category_id: String,
    pub title: String,
    pub section: String,
    pub content: String,
    pub metadata: JsonValue,
}

impl View for KnowledgeDocumentDto {
    type V = DocumentView;

    open spec fn view(&self) -> DocumentView {
        DocumentView {
            id: self.id@,
            category_id: self.category_id@,
            title: self.title@,
            section: self.section@,
            content: self.content@,
            metadata: json_view(self.metadata),
        }
    }
}

pub struct DraftKnowledgeResponse {
    pub categories: Vec<KnowledgeCategoryDto>,
    pub documents: Vec<KnowledgeDocumentDto>,
}

impl View for DraftKnowledgeResponse {
    type V = KnowledgeView;

    open spec fn view(&self) -> KnowledgeView {
        KnowledgeView {
            categories: self.categories@.map_values(|c: KnowledgeCategoryDto| c@),
            documents: self.documents@.map_values(|d: KnowledgeDocumentDto| d@),
        }
    }
}

pub struct UpsertDocumentRequest {
    pub id: Option<String>,
    pub category_id: String,
    pub title: String,
    pub section: String,
    pub content: String,
    pub metadata: Option<JsonValue>,
}

pub struct KnowledgeSearchRequest {
    pub query: String,
    pub top_k: usize,
}

pub struct PromptTemplateDto {
    pub system: String,
    pub developer: String,
    pub assembly: String,
}

impl View for PromptTemplateDto {
    type V = TemplateView;

    open spec fn view(&self) -> TemplateView {
        TemplateView { system: self.system@, developer: self.developer@, assembly: self.assembly@ }
    }
}

pub struct DraftPromptResponse {
    pub id: String,
    pub name: String,
    pub version: String,
    pub identity: JsonValue,
    pub router: PromptTemplateDto,
    pub response: PromptTemplateDto,
}

impl View for DraftPromptResponse {
    type V = PromptSetView;

    open spec fn view(&self) -> PromptSetView {
        PromptSetView {
            id: self.id@,
            name: self.name@,
            version: self.version@,
            identity: json_view(self.identity),
            router: self.router@,
            response: self.response@,
        }
    }
}

pub struct UpdatePromptRequest {
    pub id: String,
    pub name: String,
    pub version: String,
    pub identity: JsonValue,
    pub router: PromptTemplateDto,
    pub response: PromptTemplateDto,
}

pub struct PromptPreviewRequest {
    pub template: String,
    pub sample_context: Option<JsonValue>,
}

pub struct PromptPreviewResponse {
    pub rendered: String,
}

pub struct ClientTemplateResponse {
    pub name: String,
    pub data: JsonValue,
}

pub struct UpsertClientRequest {
    pub name: String,
    pub data: JsonValue,
}

pub struct PublishResponse {
    pub status: String,
    pub version: Option<u32>,
    pub stage: Option<String>,
    pub error: Option<String>,
    pub report: Option<JsonValue>,
}

pub struct VersionDto {
    pub version: u32,
    pub published_at: String,
    pub files: Vec<String>,
}

pub struct VersionsResponse {
    pub versions: Vec<VersionDto>,
}

pub struct VersionDetailResponse {
    pub version: u32,
    pub published_at: String,
    pub files: Vec<String>,
    pub manifest: JsonValue,
}

pub struct ProjectStatusResponse {
    pub project_id: String,
    pub dirty: bool,
    pub published_version: u32,
    pub edited_at: Option<String>,
    pub bootstrapped_at: Option<String>,
    pub draft_exists: bool,
}

pub struct ProjectAssetsResponse {
    pub project_id: String,
    pub company: DraftCompanyResponse,
    pub flows: Vec<String>,
    pub prompt_sets: Vec<String>,
    pub clients: Vec<String>,
    pub knowledge_documents: usize,
    pub knowledge_categories: usize,
    pub modules: Vec<String>,
}

pub struct KnowledgeReindexResponse {
    pub status: String,
    pub document_count: usize,
}

} // verus!
