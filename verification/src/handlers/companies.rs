//! The published companies as the API lists and describes them.

use vstd::prelude::*;
use vstd::string::StringExecFns;

use crate::companies::{clone_strings, strings_view, CompanyRegistryEntry};
use crate::dto::companies::{CompanyDetailDto, CompanyDto};
use crate::errors::ApiError;
use crate::handlers::studio::rejects;
use crate::studio::types::opt_str_view;
use crate::values::{yaml_as_mapping, yaml_as_mapping_ref, yaml_get, yaml_get_ref, YamlValue, YamlView};

verus! {

/// How many sessions use the given prompt set.
pub open spec fn count_with(prompt_sets: Seq<Seq<char>>, prompt_set: Seq<char>) -> nat {
    prompt_sets.filter(|p: Seq<char>| p == prompt_set).len()
}

/// Counts the live sessions whose prompt set is `prompt_set`, given the
/// prompt set of each live session.
pub fn active_sessions_for_prompt_set(session_prompt_sets: &Vec<String>, prompt_set: &str) -> (n: usize)
    ensures
        n == count_with(strings_view(session_prompt_sets@), prompt_set@),
{
    let ghost pred = |p: Seq<char>| p == prompt_set@;
    let ghost sv = strings_view(session_prompt_sets@);
    let mut n: usize = 0;
    let mut i: usize = 0;
    while i < session_prompt_sets.len()
        invariant
            i <= session_prompt_sets@.len(),
            sv == strings_view(session_prompt_sets@),
            pred == (|p: Seq<char>| p == prompt_set@),
            n == sv.take(i as int).filter(pred).len(),
            n <= i,
        decreases session_prompt_sets@.len() - i,
    {
        proof {
            sv.take(i as int).lemma_filter_push(sv[i as int], pred);
            assert(sv.take(i + 1) == sv.take(i as int).push(sv[i as int]));
        }
        if crate::text::str_eq(session_prompt_sets[i].as_str(), prompt_set) {
            n = n + 1;
        }
        i = i + 1;
    }
    assert(sv.take(sv.len() as int) == sv);
    n
}

/// A company in the list.
pub fn company_dto(entry: &CompanyRegistryEntry, active_session_count: usize) -> (r: CompanyDto)
    ensures
        r.id@ == entry@.id,
        r.name@ == entry@.name,
        r.prompt_set@ == entry@.prompt_set,
        r.knowledge_source@ == entry@.knowledge_source,
        r.flow_count == entry.flows@.len(),
        r.active_session_count == active_session_count,
{
    CompanyDto {
        id: entry.id.clone(),
        name: entry.name.clone(),
        prompt_set: entry.prompt_set.clone(),
        knowledge_source: entry.knowledge_source.clone(),
        flow_count: entry.flows.len(),
        active_session_count,
    }
}

/// A company in detail: with the name of its prompt set when the registry
/// knows it, and the number of sections of its knowledge source.
pub fn company_detail(
    entry: &CompanyRegistryEntry,
    active_session_count: usize,
    prompt_set_name: Option<String>,
    knowledge_section_count: usize,
) -> (r: CompanyDetailDto)
    ensures
        r.id@ == entry@.id,
        r.name@ == entry@.name,
        r.prompt_set@ == entry@.prompt_set,
        opt_str_view(r.prompt_set_name) == opt_str_view(prompt_set_name),
        r.knowledge_source@ == entry@.knowledge_source,
        r.knowledge_section_count == knowledge_section_count,
        strings_view(r.flows@) == entry@.flows,
        r.flow_count == entry.flows@.len(),
        r.active_session_count == active_session_count,
{
    CompanyDetailDto {
        id: entry.id.clone(),
        name: entry.name.clone(),
        prompt_set: entry.prompt_set.clone(),
        prompt_set_name,
        knowledge_source: entry.knowledge_source.clone(),
        knowledge_section_count,
        flows: clone_strings(&entry.flows),
        flow_count: entry.flows.len(),
        active_session_count,
    }
}

/// The number of sections of a knowledge file, parsed as YAML (`None` when
/// it could not be read or parsed): 0 without a `sections` mapping.
pub open spec fn section_count(parsed: Option<YamlView>) -> nat {
    match parsed {
        Some(v) => match yaml_get(v, "sections"@) {
            Some(s) => match yaml_as_mapping(s) {
                Some(m) => m.len(),
                None => 0,
            },
            None => 0,
        },
        None => 0,
    }
}

pub fn knowledge_section_count(parsed: Option<&YamlValue>) -> (n: usize)
    ensures
        n == section_count(match parsed {
            Some(v) => Some(v@),
            None => None,
        }),
{
    match parsed {
        Some(v) => match yaml_get_ref(v, "sections") {
            Some(s) => match yaml_as_mapping_ref(s) {
                Some(m) => {
                    proof { crate::values::lemma_yaml_entries_view(m@); }
                    m.len()
                },
                None => 0,
            },
            None => 0,
        },
        None => 0,
    }
}

/// The error for an unknown company.
pub fn company_not_found(company_id: &str) -> (e: ApiError)
    ensures
        rejects(e, "company not found: "@ + company_id@),
{
    ApiError::invalid_request("company not found: ".to_string().concat(company_id))
}

} // verus!
