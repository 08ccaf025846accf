//! Loaded prompt sets as the API lists and describes them.

use vstd::prelude::*;

verus! {

pub struct PromptSetDto {
    pub id: String,
    pub name: String,
    pub version: String,
}

pub struct PromptSetsResponse {
    pub default_set: String,
    pub sets: Vec<PromptSetDto>,
}

pub struct PromptTemplateDto {
    pub system: String,
    pub developer: String,
    pub assembly: String,
}

pub struct PromptSetDetailDto {
    pub id: String,
    pub name: String,
    pub version: String,
    pub identity: PromptIdentityDto,
    pub router: PromptTemplateDto,
    pub response: PromptTemplateDto,
}

pub struct PromptIdentityDto {
    pub name: String,
    pub bank_name: String,
    pub role: String,
    pub language: String,
    pub communication_style: String,
    pub tone: String,
}

pub struct ReloadResponse {
    pub status: String,
    pub sets_count: usize,
}

} // verus!
