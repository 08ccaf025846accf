//! Companies as the API lists and describes them.

use vstd::prelude::*;

verus! {

pub struct CompanyDto {
    pub id: String,
    pub name: String,
    pub prompt_set: String,
    pub knowledge_source: String,
    pub flow_count: usize,
    pub active_session_count: usize,
}

pub struct CompaniesResponse {
    pub companies: Vec<CompanyDto>,
}

pub struct CompanyDetailDto {
    pub id: String,
    pub name: String,
    pub prompt_set: String,
    pub prompt_set_name: Option<String>,
    pub knowledge_source: String,
    pub knowledge_section_count: usize,
    pub flows: Vec<String>,
    pub flow_count: usize,
    pub active_session_count: usize,
}

} // verus!
