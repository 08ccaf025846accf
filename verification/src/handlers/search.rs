//! Knowledge search: which modules a search loads and which it looks in.

use vstd::prelude::*;

use crate::companies::{index_of_id, CompaniesRegistry};
use crate::config::{ApiConfig, DefaultModuleConfig};
use crate::paths::path_join;

verus! {

/// The position of the first default module with the given id.
pub open spec fn module_index(ms: Seq<DefaultModuleConfig>, id: Seq<char>) -> Option<int>
    decreases ms.len(),
{
    if ms.len() == 0 {
        None
    } else if ms[0].module_id@ == id {
        Some(0)
    } else {
        match module_index(ms.drop_first(), id) {
            Some(i) => Some(i + 1),
            None => None,
        }
    }
}

pub proof fn lemma_module_index(ms: Seq<DefaultModuleConfig>, id: Seq<char>)
    ensures
        match module_index(ms, id) {
            Some(i) => 0 <= i < ms.len() && ms[i].module_id@ == id
                && forall|j: int| 0 <= j < i ==> #[trigger] ms[j].module_id@ != id,
            None => forall|j: int| 0 <= j < ms.len() ==> #[trigger] ms[j].module_id@ != id,
        },
    decreases ms.len(),
{
    if ms.len() > 0 {
        lemma_module_index(ms.drop_first(), id);
        assert forall|j: int| 1 <= j < ms.len() implies #[trigger] ms[j] == ms.drop_first()[j - 1] by {}
    }
}

/// Where the default module with the given id is loaded from: its path under the data root.
pub open spec fn default_module_path(config: ApiConfig, id: Seq<char>) -> Option<Seq<char>> {
    match module_index(config.default_modules@, id) {
        Some(i) => Some(path_join(config.data_root@, config.default_modules@[i].path@)),
        None => None,
    }
}

/// The path of the first default module with the given id.
pub fn find_module_path(config: &ApiConfig, module_id: &str) -> (r: Option<String>)
    ensures
        match default_module_path(*config, module_id@) {
            Some(p) => r matches Some(s) && s@ == p,
            None => r is None,
        },
{
    let ghost ms = config.default_modules@;
    proof { lemma_module_index(ms, module_id@); }
    let mut i: usize = 0;
    while i < config.default_modules.len()
        invariant
            i <= config.default_modules@.len(),
            ms == config.default_modules@,
            forall|j: int| 0 <= j < i ==> #[trigger] ms[j].module_id@ != module_id@,
        decreases config.default_modules@.len() - i,
    {
        if crate::text::str_eq(config.default_modules[i].module_id.as_str(), module_id) {
            proof {
                lemma_module_index(ms, module_id@);
                match module_index(ms, module_id@) {
                    Some(k) => {
                        if k < i {
                            assert(ms[k].module_id@ != module_id@);
                        } else if k > i {
                            assert(ms[i as int].module_id@ != module_id@);
                        }
                    },
                    None => {
                        assert(ms[i as int].module_id@ != module_id@);
                    },
                }
            }
            return Some(config.resolve_data_path(config.default_modules[i].path.as_str()));
        }
        i = i + 1;
    }
    None
}

/// Where a search inspection loads the company module from: the knowledge
/// source of the requested company when the registry has it, else the
/// default `company` module.
pub open spec fn company_module_path(config: ApiConfig, knowledge_source: Option<Seq<char>>) -> Option<Seq<char>> {
    match knowledge_source {
        Some(k) => Some(path_join(config.data_root@, k)),
        None => default_module_path(config, "company"@),
    }
}

/// The knowledge source of the company a search names, if the registry has it.
pub fn company_knowledge_source(registry: &CompaniesRegistry, company_id: Option<&str>) -> (r: Option<String>)
    ensures
        match company_id {
            Some(id) => match index_of_id(registry@.entries, id@) {
                Some(i) => r matches Some(s) && s@ == registry@.entries[i].knowledge_source,
                None => r is None,
            },
            None => r is None,
        },
{
    match company_id {
        Some(id) => match registry.get(id) {
            Some(e) => {
                proof { crate::companies::lemma_index_of_id(registry@.entries, id@); }
                proof {
                    registry.lemma_view();
                    crate::companies::lemma_index_of_id(registry@.entries, id@);
                    let i = index_of_id(registry@.entries, id@)->Some_0;
                    assert(registry@.entries[i] == registry.entry_values()[i]@);
                }
                Some(e.knowledge_source.clone())
            },
            None => None,
        },
        None => None,
    }
}

pub fn company_module_source(config: &ApiConfig, knowledge_source: Option<&str>) -> (r: Option<String>)
    ensures
        match company_module_path(*config, match knowledge_source {
            Some(k) => Some(k@),
            None => None,
        }) {
            Some(p) => r matches Some(s) && s@ == p,
            None => r is None,
        },
{
    match knowledge_source {
        Some(k) => Some(config.resolve_data_path(k)),
        None => find_module_path(config, "company"),
    }
}

/// The modules a search looks in: all (`None`) when the request names none.
pub fn module_filter(module_ids: &Vec<String>) -> (r: Option<&Vec<String>>)
    ensures
        module_ids@.len() == 0 ==> r is None,
        module_ids@.len() > 0 ==> r == Some(module_ids),
{
    if module_ids.len() == 0 {
        None
    } else {
        Some(module_ids)
    }
}

} // verus!
