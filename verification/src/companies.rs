//! The companies registry: the published companies, each with its prompt set,
//! knowledge source and flows, and the edits that the studio makes to it.

use vstd::prelude::*;

use vstd::string::StringExecFns;

use crate::paths::{join, path_join};
use crate::text::str_eq;

verus! {

pub enum CompaniesError {
    NotFound(String),
    Invalid(String),
}

impl CompaniesError {
    /// The error as `Display` writes it.
    pub fn text(&self) -> (m: String)
        ensures
            match self {
                CompaniesError::NotFound(s) => m@ == "companies registry not found: "@ + s@,
                CompaniesError::Invalid(s) => m@ == "invalid companies registry: "@ + s@,
            },
    {
        match self {
            CompaniesError::NotFound(s) => "companies registry not found: ".to_string().concat(s.as_str()),
            CompaniesError::Invalid(s) => "invalid companies registry: ".to_string().concat(s.as_str()),
        }
    }
}

/// What reading the registry file gave.
pub enum RegistryRead {
    /// No file at the registry's path.
    Missing,
    /// The file could not be read; the reason.
    Unreadable(String),
    /// The file is not a registry; the parser's message.
    Malformed(String),
    /// The file's contents.
    Parsed(CompaniesRegistryFile),
}

/// Where the registry of a data root is kept.
pub open spec fn spec_registry_path(data_root: Seq<char>) -> Seq<char> {
    path_join(data_root, "companies/registry.yaml"@)
}

pub fn registry_path(data_root: &str) -> (p: String)
    ensures
        p@ == spec_registry_path(data_root@),
{
    join(data_root, "companies/registry.yaml")
}

/// One company as the registry lists it.
pub struct CompanyRegistryEntry {
    pub id: String,
    pub name: String,
    pub prompt_set: String,
    pub knowledge_source: String,
    pub flows: Vec<String>,
}

/// The registry as it is stored: the list of companies.
pub struct CompaniesRegistryFile {
    pub companies: Vec<CompanyRegistryEntry>,
}

pub struct CompanyEntryView {
    pub id: Seq<char>,
    pub name: Seq<char>,
    pub prompt_set: Seq<char>,
    pub knowledge_source: Seq<char>,
    pub flows: Seq<Seq<char>>,
}

pub open spec fn strings_view(v: Seq<String>) -> Seq<Seq<char>> {
    v.map_values(|s: String| s@)
}

/// A copy of a list of strings.
pub fn clone_strings(v: &Vec<String>) -> (r: Vec<String>)
    ensures
        strings_view(r@) == strings_view(v@),
{
    let mut r: Vec<String> = Vec::new();
    let mut i: usize = 0;
    while i < v.len()
        invariant
            i <= v@.len(),
            r@.len() == i,
            forall|j: int| 0 <= j < i ==> #[trigger] r@[j]@ == v@[j]@,
        decreases v@.len() - i,
    {
        r.push(v[i].clone());
        i = i + 1;
    }
    assert(strings_view(r@) =~= strings_view(v@));
    r
}

impl View for CompanyRegistryEntry {
    type V = CompanyEntryView;

    open spec fn view(&self) -> CompanyEntryView {
        CompanyEntryView {
            id: self.id@,
            name: self.name@,
            prompt_set: self.prompt_set@,
            knowledge_source: self.knowledge_source@,
            flows: strings_view(self.flows@),
        }
    }
}

pub open spec fn entries_view(v: Seq<CompanyRegistryEntry>) -> Seq<CompanyEntryView> {
    v.map_values(|e: CompanyRegistryEntry| e@)
}

/// The position of the first company with the given id.
pub open spec fn index_of_id(s: Seq<CompanyEntryView>, id: Seq<char>) -> Option<int>
    decreases s.len(),
{
    if s.len() == 0 {
        None
    } else if s[0].id == id {
        Some(0)
    } else {
        match index_of_id(s.drop_first(), id) {
            Some(i) => Some(i + 1),
            None => None,
        }
    }
}

/// `index_of_id` is the first position that holds the id, and `None` when no position does.
pub proof fn lemma_index_of_id(s: Seq<CompanyEntryView>, id: Seq<char>)
    ensures
        match index_of_id(s, id) {
            Some(i) => 0 <= i < s.len() && s[i].id == id && forall|j: int|
                0 <= j < i ==> #[trigger] s[j].id != id,
            None => forall|j: int| 0 <= j < s.len() ==> #[trigger] s[j].id != id,
        },
    decreases s.len(),
{
    if s.len() > 0 {
        lemma_index_of_id(s.drop_first(), id);
        assert forall|j: int| 1 <= j < s.len() implies #[trigger] s[j].id == s.drop_first()[j - 1].id by {}
    }
}

/// The registry after `entry` is stored: in place of the company with its id, or at the end.
pub open spec fn spec_upsert(s: Seq<CompanyEntryView>, entry: CompanyEntryView) -> Seq<CompanyEntryView> {
    match index_of_id(s, entry.id) {
        Some(i) => s.update(i, entry),
        None => s.push(entry),
    }
}

/// The registry without the companies that have the given id.
pub open spec fn spec_remove(s: Seq<CompanyEntryView>, id: Seq<char>) -> Seq<CompanyEntryView> {
    s.filter(|e: CompanyEntryView| e.id != id)
}

/// The registry with the first company of the given id renamed.
pub open spec fn spec_rename(s: Seq<CompanyEntryView>, id: Seq<char>, name: Seq<char>) -> Seq<CompanyEntryView> {
    match index_of_id(s, id) {
        Some(i) => s.update(i, CompanyEntryView { name, ..s[i] }),
        None => s,
    }
}

/// The loaded registry and the file it came from.
pub struct CompaniesRegistry {
    entries: Vec<CompanyRegistryEntry>,
    path: String,
}

pub struct RegistryView {
    pub entries: Seq<CompanyEntryView>,
    pub path: Seq<char>,
}

impl View for CompaniesRegistry {
    type V = RegistryView;

    closed spec fn view(&self) -> RegistryView {
        RegistryView { entries: entries_view(self.entries@), path: self.path@ }
    }
}

impl CompaniesRegistry {
    pub closed spec fn entry_values(&self) -> Seq<CompanyRegistryEntry> {
        self.entries@
    }

    pub proof fn lemma_view(&self)
        ensures
            self@.entries == entries_view(self.entry_values()),
    {
    }

    /// The registry of a data root, from what reading its file gave: a
    /// missing file is `NotFound` with the path, an unreadable one `Invalid`
    /// with "read <path>: <reason>", a malformed one `Invalid` with the
    /// parser's message.
    pub fn load(data_root: &str, read: RegistryRead) -> (r: Result<CompaniesRegistry, CompaniesError>)
        ensures
            match read {
                RegistryRead::Missing => r matches Err(CompaniesError::NotFound(p)) && p@ == spec_registry_path(data_root@),
                RegistryRead::Unreadable(e) => r matches Err(CompaniesError::Invalid(m))
                    && m@ == "read "@ + spec_registry_path(data_root@) + ": "@ + e@,
                RegistryRead::Malformed(e) => r matches Err(CompaniesError::Invalid(m)) && m@ == e@,
                RegistryRead::Parsed(file) => r matches Ok(reg) && reg.entry_values() == file.companies@
                    && reg@.path == spec_registry_path(data_root@),
            },
    {
        let path = registry_path(data_root);
        match read {
            RegistryRead::Missing => Err(CompaniesError::NotFound(path)),
            RegistryRead::Unreadable(e) => {
                let mut m = "read ".to_string();
                m.append(path.as_str());
                m.append(": ");
                m.append(e.as_str());
                Err(CompaniesError::Invalid(m))
            },
            RegistryRead::Malformed(e) => Err(CompaniesError::Invalid(e)),
            RegistryRead::Parsed(file) => Ok(CompaniesRegistry { entries: file.companies, path }),
        }
    }

    /// Loads the registry again (the same as [`CompaniesRegistry::load`]).
    pub fn reload(data_root: &str, read: RegistryRead) -> (r: Result<CompaniesRegistry, CompaniesError>)
        ensures
            match read {
                RegistryRead::Missing => r matches Err(CompaniesError::NotFound(p)) && p@ == spec_registry_path(data_root@),
                RegistryRead::Unreadable(e) => r matches Err(CompaniesError::Invalid(m))
                    && m@ == "read "@ + spec_registry_path(data_root@) + ": "@ + e@,
                RegistryRead::Malformed(e) => r matches Err(CompaniesError::Invalid(m)) && m@ == e@,
                RegistryRead::Parsed(file) => r matches Ok(reg) && reg.entry_values() == file.companies@
                    && reg@.path == spec_registry_path(data_root@),
            },
    {
        Self::load(data_root, read)
    }

    /// The file that saving the registry writes: its companies.
    pub fn to_file(&self) -> (f: CompaniesRegistryFile)
        ensures
            entries_view(f.companies@) == self@.entries,
    {
        let mut companies: Vec<CompanyRegistryEntry> = Vec::new();
        let mut i: usize = 0;
        while i < self.entries.len()
            invariant
                i <= self.entries@.len(),
                companies@.len() == i,
                forall|j: int| 0 <= j < i ==> #[trigger] companies@[j]@ == self.entries@[j]@,
            decreases self.entries@.len() - i,
        {
            let e = &self.entries[i];
            companies.push(CompanyRegistryEntry {
                id: e.id.clone(),
                name: e.name.clone(),
                prompt_set: e.prompt_set.clone(),
                knowledge_source: e.knowledge_source.clone(),
                flows: clone_strings(&e.flows),
            });
            i = i + 1;
        }
        assert(entries_view(companies@) =~= entries_view(self.entries@));
        CompaniesRegistryFile { companies }
    }

    pub fn from_entries(entries: Vec<CompanyRegistryEntry>, path: String) -> (r: CompaniesRegistry)
        ensures
            r.entry_values() == entries@,
            r@.entries == entries_view(entries@),
            r@.path == path@,
    {
        CompaniesRegistry { entries, path }
    }

    /// All companies, in registry order.
    pub fn list(&self) -> (r: &[CompanyRegistryEntry])
        ensures
            r@ == self.entry_values(),
    {
        self.entries.as_slice()
    }

    /// The file the registry was loaded from.
    pub fn path(&self) -> (r: &str)
        ensures
            r@ == self@.path,
    {
        self.path.as_str()
    }

    /// The first company with the given id.
    pub fn get(&self, id: &str) -> (r: Option<&CompanyRegistryEntry>)
        ensures
            match index_of_id(self@.entries, id@) {
                Some(i) => r matches Some(e) && *e == self.entry_values()[i],
                None => r is None,
            },
    {
        match self.position(id) {
            Some(i) => {
                let e = &self.entries[i];
                assert(*e == self.entry_values()[i as int]);
                Some(e)
            },
            None => None,
        }
    }

    /// The position of the first company with the given id.
    pub fn position(&self, id: &str) -> (r: Option<usize>)
        ensures
            match index_of_id(self@.entries, id@) {
                Some(i) => r matches Some(k) && k == i,
                None => r is None,
            },
            r matches Some(i) ==> i < self.entry_values().len(),
    {
        let ghost s = self@.entries;
        proof {
            lemma_index_of_id(s, id@);
        }
        let mut i: usize = 0;
        while i < self.entries.len()
            invariant
                s == entries_view(self.entries@),
                i <= self.entries@.len(),
                forall|j: int| 0 <= j < i ==> #[trigger] s[j].id != id@,
                match index_of_id(s, id@) {
                    Some(k) => 0 <= k < s.len() && s[k].id == id@ && forall|j: int|
                        0 <= j < k ==> #[trigger] s[j].id != id@,
                    None => forall|j: int| 0 <= j < s.len() ==> #[trigger] s[j].id != id@,
                },
            decreases self.entries@.len() - i,
        {
            if str_eq(self.entries[i].id.as_str(), id) {
                assert(s[i as int].id == id@);
                return Some(i);
            }
            i = i + 1;
        }
        None
    }

    /// Whether a company with the given id is registered.
    pub fn contains(&self, id: &str) -> (b: bool)
        ensures
            b == (index_of_id(self@.entries, id@) is Some),
    {
        self.position(id).is_some()
    }

    /// Mutable access to the list of companies; the path stays as it is.
    pub fn entries_mut(&mut self) -> (r: &mut Vec<CompanyRegistryEntry>)
        ensures
            r@ == old(self).entry_values(),
            final(self).entry_values() == final(r)@,
            final(self)@.path == old(self)@.path,
    {
        &mut self.entries
    }

    /// Stores `entry`: it replaces the company with the same id, or is appended.
    pub fn upsert(&mut self, entry: CompanyRegistryEntry)
        ensures
            final(self)@.entries == spec_upsert(old(self)@.entries, entry@),
            final(self)@.path == old(self)@.path,
    {
        match self.position(entry.id.as_str()) {
            Some(i) => {
                let ghost e = entry@;
                self.entries.set(i, entry);
                assert(entries_view(self.entries@) =~= old(self)@.entries.update(i as int, e));
            },
            None => {
                let ghost e = entry@;
                self.entries.push(entry);
                assert(entries_view(self.entries@) =~= old(self)@.entries.push(e));
            },
        }
    }

    /// Drops every company with the given id, keeping the order of the others.
    pub fn remove(&mut self, id: &str)
        ensures
            final(self)@.entries == spec_remove(old(self)@.entries, id@),
            final(self)@.path == old(self)@.path,
    {
        let ghost pred = |e: CompanyEntryView| e.id != id@;
        let ghost s = self@.entries;
        let mut kept: Vec<CompanyRegistryEntry> = Vec::new();
        let mut old_entries: Vec<CompanyRegistryEntry> = Vec::new();
        std::mem::swap(&mut old_entries, &mut self.entries);
        let n = old_entries.len();
        let ghost sv = old_entries@;
        assert(entries_view(sv) == s);
        let mut rest = old_entries;
        assert(entries_view(kept@) =~= s.take(0).filter(pred));
        let mut i: usize = 0;
        while i < n
            invariant
                n == s.len(),
                pred == (|e: CompanyEntryView| e.id != id@),
                sv.len() == n,
                entries_view(sv) == s,
                i <= n,
                rest@ == sv.subrange(i as int, n as int),
                entries_view(kept@) == s.take(i as int).filter(pred),
            decreases n - i,
        {
            let e = rest.remove(0);
            assert(e == sv[i as int]);
            assert(e@ == s[i as int]);
            assert(rest@ =~= sv.subrange(i + 1, n as int));
            proof {
                s.take(i as int).lemma_filter_push(s[i as int], pred);
                assert(s.take(i + 1) == s.take(i as int).push(s[i as int]));
                assert(pred(s[i as int]) == (e@.id != id@));
            }
            let ghost before = kept@;
            if !str_eq(e.id.as_str(), id) {
                let ghost ev = e@;
                kept.push(e);
                assert(entries_view(kept@) =~= entries_view(before).push(ev));
            }
            assert(entries_view(kept@) == s.take(i + 1).filter(pred));
            i = i + 1;
        }
        assert(s.take(n as int) == s);
        self.entries = kept;
    }

    /// Renames the first company with the given id.
    pub fn rename(&mut self, id: &str, name: &str)
        ensures
            final(self)@.entries == spec_rename(old(self)@.entries, id@, name@),
            final(self)@.path == old(self)@.path,
            final(self)@.entries.len() == old(self)@.entries.len(),
            forall|j: int| 0 <= j < old(self)@.entries.len() ==> {
                &&& (#[trigger] final(self)@.entries[j]).id == old(self)@.entries[j].id
                &&& final(self)@.entries[j].prompt_set == old(self)@.entries[j].prompt_set
                &&& final(self)@.entries[j].knowledge_source == old(self)@.entries[j].knowledge_source
                &&& final(self)@.entries[j].flows == old(self)@.entries[j].flows
                &&& (old(self)@.entries[j].id != id@ ==> final(self)@.entries[j] == old(self)@.entries[j])
            },
            index_of_id(old(self)@.entries, id@) matches Some(i) ==> final(self)@.entries[i].name == name@,
    {
        proof {
            law_rename(self@.entries, id@, name@);
        }
        match self.position(id) {
            Some(i) => {
                let ghost before = self@.entries;
                let mut e = self.entries.remove(i);
                e.name = name.to_string();
                let ghost ev = e@;
                self.entries.insert(i, e);
                assert(ev == CompanyEntryView { name: name@, ..before[i as int] });
                assert(entries_view(self.entries@) =~= before.update(i as int, ev));
            },
            None => {},
        }
    }
}

/// Storing an entry makes it the company found under its id.
pub proof fn law_upsert_then_find(s: Seq<CompanyEntryView>, entry: CompanyEntryView)
    ensures
        match index_of_id(spec_upsert(s, entry), entry.id) {
            Some(i) => spec_upsert(s, entry)[i] == entry,
            None => false,
        },
{
    lemma_index_of_id(s, entry.id);
    let t = spec_upsert(s, entry);
    lemma_index_of_id(t, entry.id);
    match index_of_id(s, entry.id) {
        Some(i) => {
            assert(t[i].id == entry.id);
        },
        None => {
            assert(t[s.len() as int].id == entry.id);
        },
    }
}

/// Storing an entry leaves every other id where it was, with the same company.
pub proof fn law_upsert_keeps_others(s: Seq<CompanyEntryView>, entry: CompanyEntryView, id: Seq<char>)
    requires
        id != entry.id,
    ensures
        index_of_id(spec_upsert(s, entry), id) == index_of_id(s, id),
        match index_of_id(s, id) {
            Some(i) => spec_upsert(s, entry)[i] == s[i],
            None => true,
        },
{
    lemma_index_of_id(s, entry.id);
    lemma_index_of_id(s, id);
    let t = spec_upsert(s, entry);
    lemma_index_of_id(t, id);
    match index_of_id(s, id) {
        Some(i) => {
            assert(t[i].id == id);
            match index_of_id(t, id) {
                Some(k) => {
                    if k < i {
                        assert(t[k].id == s[k].id);
                    }
                },
                None => {},
            }
        },
        None => {
            match index_of_id(t, id) {
                Some(k) => {
                    assert(k < s.len() ==> t[k].id == s[k].id);
                },
                None => {},
            }
        },
    }
}

/// After a removal no company has the removed id, and no other company is lost.
pub proof fn law_remove_drops_id(s: Seq<CompanyEntryView>, id: Seq<char>)
    ensures
        index_of_id(spec_remove(s, id), id) is None,
        forall|j: int| 0 <= j < s.len() && s[j].id != id ==> spec_remove(s, id).contains(s[j]),
{
    let pred = |e: CompanyEntryView| e.id != id;
    let t = spec_remove(s, id);
    lemma_index_of_id(t, id);
    assert forall|j: int| 0 <= j < t.len() implies #[trigger] t[j].id != id by {
        s.lemma_filter_pred(pred, j);
    }
    assert forall|j: int| 0 <= j < s.len() && s[j].id != id implies spec_remove(s, id).contains(s[j]) by {
        s.lemma_filter_contains(pred, j);
    }
}

/// Renaming keeps every id in place and gives the renamed company the new name.
pub proof fn law_rename(s: Seq<CompanyEntryView>, id: Seq<char>, name: Seq<char>)
    ensures
        spec_rename(s, id, name).len() == s.len(),
        forall|j: int| 0 <= j < s.len() ==> {
            &&& (#[trigger] spec_rename(s, id, name)[j]).id == s[j].id
            &&& spec_rename(s, id, name)[j].prompt_set == s[j].prompt_set
            &&& spec_rename(s, id, name)[j].knowledge_source == s[j].knowledge_source
            &&& spec_rename(s, id, name)[j].flows == s[j].flows
        },
        forall|j: int| 0 <= j < s.len() && s[j].id != id ==> #[trigger] spec_rename(s, id, name)[j] == s[j],
        match index_of_id(s, id) {
            Some(i) => spec_rename(s, id, name)[i].name == name
                && forall|j: int| 0 <= j < s.len() && j != i ==> #[trigger] spec_rename(s, id, name)[j] == s[j],
            None => spec_rename(s, id, name) == s,
        },
{
    lemma_index_of_id(s, id);
}

} // verus!
