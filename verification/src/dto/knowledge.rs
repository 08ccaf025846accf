//! Knowledge sources, their sections, and the modules built on them.

use vstd::prelude::*;

verus! {

pub struct KnowledgeSourceDto {
    pub name: String,
    pub path: String,
    pub section_count: usize,
}

pub struct KnowledgeSourcesResponse {
    pub sources: Vec<KnowledgeSourceDto>,
}

pub struct KnowledgeSectionDto {
    pub id: String,
    pub description: Option<String>,
    pub content: String,
}

pub struct KnowledgeSourceDetailResponse {
    pub name: String,
    pub path: String,
    pub sections: Vec<KnowledgeSectionDto>,
    pub section_count: usize,
}

pub struct ModuleDto {
    pub id: String,
    pub name: String,
    pub description: String,
}

pub struct ModulesResponse {
    pub modules: Vec<ModuleDto>,
}

} // verus!
