//! The studio's draft of a project: manifest, company, flows, knowledge,
//! prompts and published versions, with a view of each as plain values.

use vstd::prelude::*;

use crate::companies::strings_view;
use crate::values::{json_view, JsonValue, JsonView};

verus! {

pub open spec fn opt_str_view(o: Option<String>) -> Option<Seq<char>> {
    match o {
        Some(s) => Some(s@),
        None => None,
    }
}

/// A copy of an optional string.
pub fn clone_opt_str(o: &Option<String>) -> (r: Option<String>)
    ensures
        opt_str_view(r) == opt_str_view(*o),
{
    match o {
        Some(s) => Some(s.clone()),
        None => None,
    }
}

/// Editing state of a project's draft.
pub struct DraftManifest {
    pub project_id: String,
    pub dirty: bool,
    pub edited_at: Option<String>,
    pub published_version: u32,
    pub bootstrapped_at: Option<String>,
}

pub struct ManifestView {
    pub project_id: Seq<char>,
    pub dirty: bool,
    pub edited_at: Option<Seq<char>>,
    pub published_version: u32,
    pub bootstrapped_at: Option<Seq<char>>,
}

impl View for DraftManifest {
    type V = ManifestView;

    open spec fn view(&self) -> ManifestView {
        ManifestView {
            project_id: self.project_id@,
            dirty: self.dirty,
            edited_at: opt_str_view(self.edited_at),
            published_version: self.published_version,
            bootstrapped_at: opt_str_view(self.bootstrapped_at),
        }
    }
}

impl DraftManifest {
    /// A clean, never published, never bootstrapped draft.
    pub fn new(project_id: String) -> (m: DraftManifest)
        ensures
            m@ == (ManifestView {
                project_id: project_id@,
                dirty: false,
                edited_at: None,
                published_version: 0,
                bootstrapped_at: None,
            }),
    {
        DraftManifest {
            project_id,
            dirty: false,
            edited_at: None,
            published_version: 0,
            bootstrapped_at: None,
        }
    }
}

/// The company of a draft.
pub struct DraftCompany {
    pub id: String,
    pub name: String,
    pub description: Option<String>,
    pub prompt_set: String,
    pub knowledge_source: String,
    pub flows: Vec<String>,
}

pub struct CompanyView {
    pub id: Seq<char>,
    pub name: Seq<char>,
    pub description: Option<Seq<char>>,
    pub prompt_set: Seq<char>,
    pub knowledge_source: Seq<char>,
    pub flows: Seq<Seq<char>>,
}

impl View for DraftCompany {
    type V = CompanyView;

    open spec fn view(&self) -> CompanyView {
        CompanyView {
            id: self.id@,
            name: self.name@,
            description: opt_str_view(self.description),
            prompt_set: self.prompt_set@,
            knowledge_source: self.knowledge_source@,
            flows: strings_view(self.flows@),
        }
    }
}

/// Where a node is drawn; each coordinate is the IEEE-754 bit pattern of a `f64`.
pub struct NodePosition {
    pub x_bits: u64,
    pub y_bits: u64,
}

pub struct DraftFlowTransition {
    pub action: String,
    pub target: String,
}

pub struct DraftFlowNode {
    pub id: String,
    pub node_type: String,
    pub payload: JsonValue,
    pub transitions: Vec<DraftFlowTransition>,
    pub position: Option<NodePosition>,
}

pub struct DraftFlow {
    pub id: String,
    pub name: Option<String>,
    pub version: u32,
    pub initial: String,
    pub nodes: Vec<DraftFlowNode>,
}

pub struct TransitionView {
    pub action: Seq<char>,
    pub target: Seq<char>,
}

pub struct NodeView {
    pub id: Seq<char>,
    pub node_type: Seq<char>,
    pub payload: JsonView,
    pub transitions: Seq<TransitionView>,
    pub position: Option<(u64, u64)>,
}

pub struct FlowView {
    pub id: Seq<char>,
    pub name: Option<Seq<char>>,
    pub version: u32,
    pub initial: Seq<char>,
    pub nodes: Seq<NodeView>,
}

impl View for DraftFlowTransition {
    type V = TransitionView;

    open spec fn view(&self) -> TransitionView {
        TransitionView { action: self.action@, target: self.target@ }
    }
}

pub open spec fn transitions_view(s: Seq<DraftFlowTransition>) -> Seq<TransitionView> {
    s.map_values(|t: DraftFlowTransition| t@)
}

pub open spec fn position_view(p: Option<NodePosition>) -> Option<(u64, u64)> {
    match p {
        Some(p) => Some((p.x_bits, p.y_bits)),
        None => None,
    }
}

impl View for DraftFlowNode {
    type V = NodeView;

    open spec fn view(&self) -> NodeView {
        NodeView {
            id: self.id@,
            node_type: self.node_type@,
            payload: json_view(self.payload),
            transitions: transitions_view(self.transitions@),
            position: position_view(self.position),
        }
    }
}

pub open spec fn nodes_view(s: Seq<DraftFlowNode>) -> Seq<NodeView> {
    s.map_values(|n: DraftFlowNode| n@)
}

impl View for DraftFlow {
    type V = FlowView;

    open spec fn view(&self) -> FlowView {
        FlowView {
            id: self.id@,
            name: opt_str_view(self.name),
            version: self.version,
            initial: self.initial@,
            nodes: nodes_view(self.nodes@),
        }
    }
}

pub struct KnowledgeCategory {
    pub id: String,
    pub name: String,
}

pub struct KnowledgeDocument {
    pub id: String,
    pub category_id: String,
    pub title: String,
    pub section: String,
    pub content: String,
    pub metadata: JsonValue,
}

pub struct DraftKnowledge {
    pub categories: Vec<KnowledgeCategory>,
    pub documents: Vec<KnowledgeDocument>,
}

pub struct CategoryView {
    pub id: Seq<char>,
    pub name: Seq<char>,
}

pub struct DocumentView {
    pub id: Seq<char>,
    pub category_id: Seq<char>,
    pub title: Seq<char>,
    pub section: Seq<char>,
    pub content: Seq<char>,
    pub metadata: JsonView,
}

pub struct KnowledgeView {
    pub categories: Seq<CategoryView>,
    pub documents: Seq<DocumentView>,
}

impl View for KnowledgeCategory {
    type V = CategoryView;

    open spec fn view(&self) -> CategoryView {
        CategoryView { id: self.id@, name: self.name@ }
    }
}

impl View for KnowledgeDocument {
    type V = DocumentView;

    open spec fn view(&self) -> DocumentView {
        DocumentView {
            id: self.id@,
            category_id: self.category_id@,
            title: self.title@,
            section: self.section@,
            content: self.content@,
            metadata: json_view(self.metadata),
        }
    }
}

pub open spec fn categories_view(s: Seq<KnowledgeCategory>) -> Seq<CategoryView> {
    s.map_values(|c: KnowledgeCategory| c@)
}

pub open spec fn documents_view(s: Seq<KnowledgeDocument>) -> Seq<DocumentView> {
    s.map_values(|d: KnowledgeDocument| d@)
}

impl View for DraftKnowledge {
    type V = KnowledgeView;

    open spec fn view(&self) -> KnowledgeView {
        KnowledgeView {
            categories: categories_view(self.categories@),
            documents: documents_view(self.documents@),
        }
    }
}

impl DraftKnowledge {
    /// Knowledge with the one "General" category and no documents.
    pub fn default() -> (k: DraftKnowledge)
        ensures
            k@.categories == seq![CategoryView { id: "general"@, name: "General"@ }],
            k@.documents.len() == 0,
    {
        let mut categories: Vec<KnowledgeCategory> = Vec::new();
        categories.push(KnowledgeCategory { id: "general".to_string(), name: "General".to_string() });
        let documents: Vec<KnowledgeDocument> = Vec::new();
        let k = DraftKnowledge { categories, documents };
        assert(k@.categories =~= seq![CategoryView { id: "general"@, name: "General"@ }]);
        k
    }
}

/// The identity part of a prompt set, as free-form JSON.
pub struct DraftPromptIdentity {
    pub fields: JsonValue,
}

pub struct DraftPromptTemplate {
    pub system: String,
    pub developer: String,
    pub assembly: String,
}

pub struct DraftPromptSet {
    pub id: String,
    pub name: String,
    pub version: String,
    pub identity: JsonValue,
    pub router: DraftPromptTemplate,
    pub response: DraftPromptTemplate,
}

pub struct TemplateView {
    pub system: Seq<char>,
    pub developer: Seq<char>,
    pub assembly: Seq<char>,
}

pub struct PromptSetView {
    pub id: Seq<char>,
    pub name: Seq<char>,
    pub version: Seq<char>,
    pub identity: JsonView,
    pub router: TemplateView,
    pub response: TemplateView,
}

impl View for DraftPromptTemplate {
    type V = TemplateView;

    open spec fn view(&self) -> TemplateView {
        TemplateView { system: self.system@, developer: self.developer@, assembly: self.assembly@ }
    }
}

impl View for DraftPromptSet {
    type V = PromptSetView;

    open spec fn view(&self) -> PromptSetView {
        PromptSetView {
            id: self.id@,
            name: self.name@,
            version: self.version@,
            identity: json_view(self.identity),
            router: self.router@,
            response: self.response@,
        }
    }
}

/// A published version: its number, when, and the files it saved.
pub struct VersionManifest {
    pub version: u32,
    pub published_at: String,
    pub project_id: String,
    pub files: Vec<String>,
}

} // verus!
