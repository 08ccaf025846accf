//! Where the studio keeps its drafts and published versions, and the
//! decisions it makes about them: which files a listing holds, the latest
//! version, and how the draft's manifest changes with each edit.

use vstd::prelude::*;
use vstd::string::StringExecFns;

use crate::companies::{clone_strings, strings_view, CompanyRegistryEntry};
use crate::config::ApiConfig;
use crate::paths::{join, path_join};
use crate::sorting::{sort_strings, texts_sorted};
use crate::studio::types::{DraftCompany, DraftManifest, ManifestView, VersionManifest};
use crate::text::{decimal, parse_unsigned, parse_unsigned_str, u64_to_decimal};

verus! {

/// The studio's directory: drafts under `drafts/`, versions under `versions/`.
pub struct StudioStore {
    root: String,
}

impl View for StudioStore {
    type V = Seq<char>;

    closed spec fn view(&self) -> Seq<char> {
        self.root@
    }
}

pub open spec fn spec_draft_dir(root: Seq<char>, project_id: Seq<char>) -> Seq<char> {
    path_join(path_join(root, "drafts"@), project_id)
}

pub open spec fn spec_versions_dir(root: Seq<char>, project_id: Seq<char>) -> Seq<char> {
    path_join(path_join(root, "versions"@), project_id)
}

/// The file name of a draft item stored as JSON: its id and `.json`.
pub open spec fn json_file_name(id: Seq<char>) -> Seq<char> {
    id + ".json"@
}

impl StudioStore {
    /// The studio under a data root: its `studio` directory.
    pub fn new(data_root: &str) -> (s: StudioStore)
        ensures
            s@ == path_join(data_root@, "studio"@),
    {
        StudioStore { root: join(data_root, "studio") }
    }

    pub fn root(&self) -> (r: &str)
        ensures
            r@ == self@,
    {
        self.root.as_str()
    }

    /// The draft directory of a project.
    pub fn draft_dir(&self, project_id: &str) -> (d: String)
        ensures
            d@ == spec_draft_dir(self@, project_id@),
    {
        let drafts = join(self.root.as_str(), "drafts");
        join(drafts.as_str(), project_id)
    }

    /// The directory of a project's published versions.
    pub fn versions_dir(&self, project_id: &str) -> (d: String)
        ensures
            d@ == spec_versions_dir(self@, project_id@),
    {
        let versions = join(self.root.as_str(), "versions");
        join(versions.as_str(), project_id)
    }

    /// The two directories the studio needs before it writes a draft.
    pub fn studio_dirs(&self) -> (r: (String, String))
        ensures
            r.0@ == path_join(self@, "drafts"@),
            r.1@ == path_join(self@, "versions"@),
    {
        (join(self.root.as_str(), "drafts"), join(self.root.as_str(), "versions"))
    }

    /// A file directly in the draft directory, such as `company.json`.
    pub fn draft_file(&self, project_id: &str, name: &str) -> (p: String)
        ensures
            p@ == path_join(spec_draft_dir(self@, project_id@), name@),
    {
        let d = self.draft_dir(project_id);
        join(d.as_str(), name)
    }

    /// A subdirectory of the draft: `flows`, `prompts` or `clients`.
    pub fn draft_subdir(&self, project_id: &str, kind: &str) -> (p: String)
        ensures
            p@ == path_join(spec_draft_dir(self@, project_id@), kind@),
    {
        self.draft_file(project_id, kind)
    }

    /// The JSON file of one item of a draft subdirectory: `<kind>/<id>.json`.
    pub fn draft_item(&self, project_id: &str, kind: &str, id: &str) -> (p: String)
        ensures
            p@ == path_join(path_join(spec_draft_dir(self@, project_id@), kind@), json_file_name(id@)),
    {
        let d = self.draft_subdir(project_id, kind);
        let name = id.to_string().concat(".json");
        join(d.as_str(), name.as_str())
    }

    /// The directory of one published version: `v<version>`.
    pub fn version_dir(&self, project_id: &str, version: u32) -> (p: String)
        ensures
            p@ == path_join(spec_versions_dir(self@, project_id@), seq!['v'] + decimal(version as nat)),
    {
        let d = self.versions_dir(project_id);
        let mut name = "v".to_string();
        proof { reveal_strlit("v"); }
        let digits = u64_to_decimal(version as u64);
        name.append(digits.as_str());
        join(d.as_str(), name.as_str())
    }

    /// The company of a draft made from a registry entry; it has no description.
    pub fn company_from_registry(entry: &CompanyRegistryEntry) -> (c: DraftCompany)
        ensures
            c@.id == entry@.id,
            c@.name == entry@.name,
            c@.description is None,
            c@.prompt_set == entry@.prompt_set,
            c@.knowledge_source == entry@.knowledge_source,
            c@.flows == entry@.flows,
    {
        DraftCompany {
            id: entry.id.clone(),
            name: entry.name.clone(),
            description: None,
            prompt_set: entry.prompt_set.clone(),
            knowledge_source: entry.knowledge_source.clone(),
            flows: clone_strings(&entry.flows),
        }
    }

    /// The registry entry that publishes a draft's company; the description is dropped.
    pub fn registry_entry_from_company(company: &DraftCompany) -> (e: CompanyRegistryEntry)
        ensures
            e@.id == company@.id,
            e@.name == company@.name,
            e@.prompt_set == company@.prompt_set,
            e@.knowledge_source == company@.knowledge_source,
            e@.flows == company@.flows,
    {
        CompanyRegistryEntry {
            id: company.id.clone(),
            name: company.name.clone(),
            prompt_set: company.prompt_set.clone(),
            knowledge_source: company.knowledge_source.clone(),
            flows: clone_strings(&company.flows),
        }
    }

    /// Where a company's knowledge source lives under the data root.
    pub fn knowledge_source_path(config: &ApiConfig, knowledge_source: &str) -> (p: String)
        ensures
            p@ == path_join(config.data_root@, knowledge_source@),
    {
        config.resolve_data_path(knowledge_source)
    }
}

/// A registry entry made into a draft company and back is the same entry.
pub proof fn law_registry_round_trip(entry: CompanyRegistryEntry, company: DraftCompany, back: CompanyRegistryEntry)
    requires
        company@.id == entry@.id,
        company@.name == entry@.name,
        company@.prompt_set == entry@.prompt_set,
        company@.knowledge_source == entry@.knowledge_source,
        company@.flows == entry@.flows,
        back@.id == company@.id,
        back@.name == company@.name,
        back@.prompt_set == company@.prompt_set,
        back@.knowledge_source == company@.knowledge_source,
        back@.flows == company@.flows,
    ensures
        back@ == entry@,
{
}

/// The id a listed file name stands for: the name without `.json`, when it
/// ends so and something is left before the dot (`Path::file_stem` of a
/// file whose extension is `json`).
pub open spec fn json_stem(name: Seq<char>) -> Option<Seq<char>> {
    if name.len() > 5 && name.subrange(name.len() - 5, name.len() as int) == ".json"@ {
        Some(name.subrange(0, name.len() - 5))
    } else {
        None
    }
}

pub fn json_stem_of(name: &str) -> (r: Option<String>)
    ensures
        match json_stem(name@) {
            Some(s) => r matches Some(t) && t@ == s,
            None => r is None,
        },
{
    let n = name.unicode_len();
    if n <= 5 {
        return None;
    }
    let chars = crate::text::chars_of(name);
    let suffix = crate::text::string_from_chars(&chars, n - 5, n);
    let json = ".json";
    if !crate::text::str_eq(suffix.as_str(), json) {
        return None;
    }
    Some(crate::text::string_from_chars(&chars, 0, n - 5))
}

/// The ids that a directory listing holds: one for each `*.json` name, in order.
pub open spec fn listed_ids(names: Seq<Seq<char>>) -> Seq<Seq<char>>
    decreases names.len(),
{
    if names.len() == 0 {
        Seq::empty()
    } else {
        let rest = listed_ids(names.drop_last());
        match json_stem(names.last()) {
            Some(s) => rest.push(s),
            None => rest,
        }
    }
}

/// The ids of a directory's JSON files, sorted: how flows, prompt sets and
/// clients of a draft are listed.
pub fn json_ids_sorted(names: &Vec<String>) -> (r: Vec<String>)
    ensures
        texts_sorted(strings_view(r@)),
        strings_view(r@).to_multiset() == listed_ids(strings_view(names@)).to_multiset(),
{
    let mut ids: Vec<String> = Vec::new();
    let mut i: usize = 0;
    while i < names.len()
        invariant
            i <= names@.len(),
            strings_view(ids@) == listed_ids(strings_view(names@.subrange(0, i as int))),
        decreases names@.len() - i,
    {
        let stem = json_stem_of(names[i].as_str());
        proof {
            let pre = strings_view(names@.subrange(0, i as int));
            assert(strings_view(names@.subrange(0, i + 1)) =~= pre.push(names@[i as int]@));
            assert(strings_view(names@.subrange(0, i + 1)).drop_last() =~= pre);
        }
        match stem {
            Some(s) => {
                ids.push(s);
                assert(strings_view(ids@) =~= strings_view(ids@.drop_last()).push(ids@.last()@));
            },
            None => {},
        }
        i = i + 1;
    }
    assert(names@.subrange(0, names@.len() as int) =~= names@);
    sort_strings(ids)
}

/// The version a listed directory name stands for: `v` and a `u32` in decimal
/// (as `str::parse::<u32>` reads it, so a leading `+` is allowed).
pub open spec fn version_of(name: Seq<char>) -> Option<nat> {
    if name.len() > 0 && name[0] == 'v' {
        parse_unsigned(name.drop_first(), u32::MAX as nat)
    } else {
        None
    }
}

/// The highest version among the listed names, or 0 when none is one.
pub open spec fn max_version(names: Seq<Seq<char>>) -> nat
    decreases names.len(),
{
    if names.len() == 0 {
        0
    } else {
        let rest = max_version(names.drop_last());
        match version_of(names.last()) {
            Some(v) => if v > rest { v } else { rest },
            None => rest,
        }
    }
}

/// The highest version is at least every listed version, and is one of them
/// (or 0 when no name is a version).
pub proof fn law_max_version(names: Seq<Seq<char>>)
    ensures
        forall|i: int| 0 <= i < names.len() && (#[trigger] version_of(names[i])) is Some ==>
            version_of(names[i])->0 <= max_version(names),
        max_version(names) == 0 || exists|i: int| 0 <= i < names.len() && #[trigger] version_of(names[i]) == Some(max_version(names)),
    decreases names.len(),
{
    if names.len() > 0 {
        let t = names.drop_last();
        law_max_version(t);
        assert forall|i: int| 0 <= i < names.len() && (#[trigger] version_of(names[i])) is Some implies
            version_of(names[i])->0 <= max_version(names) by {
            if i < names.len() - 1 {
                assert(names[i] == t[i]);
            }
        }
        if max_version(names) != 0 {
            if max_version(names) == max_version(t) {
                let i = choose|i: int| 0 <= i < t.len() && #[trigger] version_of(t[i]) == Some(max_version(t));
                assert(names[i] == t[i]);
            } else {
                assert(version_of(names[names.len() - 1]) == Some(max_version(names)));
            }
        }
    }
}

/// The stem of an id's file name is the id.
pub proof fn law_json_stem_of_file(id: Seq<char>)
    requires
        id.len() > 0,
    ensures
        json_stem(json_file_name(id)) == Some(id),
{
    reveal_strlit(".json");
    let n = json_file_name(id);
    assert(n.subrange(n.len() - 5, n.len() as int) =~= ".json"@);
    assert(n.subrange(0, n.len() - 5) =~= id);
}

pub fn version_of_name(name: &str) -> (r: Option<u32>)
    ensures
        match version_of(name@) {
            Some(v) => r == Some(v as u32),
            None => r is None,
        },
{
    let n = name.unicode_len();
    if n == 0 || name.get_char(0) != 'v' {
        return None;
    }
    let chars = crate::text::chars_of(name);
    let rest = crate::text::string_from_chars(&chars, 1, n);
    assert(rest@ == name@.drop_first());
    match parse_unsigned_str(rest.as_str(), 0xffff_ffffu64) {
        Some(v) => Some(v as u32),
        None => None,
    }
}

/// The latest published version among the entries of a versions directory.
pub fn latest_version_of(names: &Vec<String>) -> (v: u32)
    ensures
        v == max_version(strings_view(names@)),
{
    let mut max: u32 = 0;
    let mut i: usize = 0;
    while i < names.len()
        invariant
            i <= names@.len(),
            max == max_version(strings_view(names@.subrange(0, i as int))),
        decreases names@.len() - i,
    {
        proof {
            let pre = strings_view(names@.subrange(0, i as int));
            assert(strings_view(names@.subrange(0, i + 1)) =~= pre.push(names@[i as int]@));
            assert(strings_view(names@.subrange(0, i + 1)).drop_last() =~= pre);
        }
        match version_of_name(names[i].as_str()) {
            Some(v) => {
                if v > max {
                    max = v;
                }
            },
            None => {},
        }
        i = i + 1;
    }
    assert(names@.subrange(0, names@.len() as int) =~= names@);
    max
}

/// Versions ordered by number.
pub open spec fn versions_sorted(s: Seq<VersionManifest>) -> bool {
    forall|i: int, j: int| 0 <= i < j < s.len() ==> #[trigger] s[i].version <= #[trigger] s[j].version
}

/// The versions of the list that have number `v`, in order.
pub open spec fn with_version(s: Seq<VersionManifest>, v: u32) -> Seq<VersionManifest> {
    s.filter(|m: VersionManifest| m.version == v)
}

/// Inserting a version after every one with a number not above its own, and
/// before every one with a higher number, appends it to those with its number.
proof fn lemma_insert_with_version(s: Seq<VersionManifest>, p: int, x: VersionManifest, v: u32)
    requires
        0 <= p <= s.len(),
        forall|k: int| p <= k < s.len() ==> x.version < #[trigger] s[k].version,
    ensures
        with_version(s.insert(p, x), v) == if x.version == v {
            with_version(s, v).push(x)
        } else {
            with_version(s, v)
        },
{
    let pred = |m: VersionManifest| m.version == v;
    let a = s.take(p);
    let b = s.skip(p);
    assert(s =~= a + b);
    assert(s.insert(p, x) =~= a + seq![x] + b);
    Seq::filter_distributes_over_add(a, b, pred);
    Seq::filter_distributes_over_add(a + seq![x], b, pred);
    Seq::filter_distributes_over_add(a, seq![x], pred);
    Seq::<VersionManifest>::empty().lemma_filter_push(x, pred);
    assert(seq![x] =~= Seq::<VersionManifest>::empty().push(x));
    assert(Seq::<VersionManifest>::empty().filter(pred) =~= Seq::<VersionManifest>::empty()) by {
        reveal(Seq::filter);
    }
    if x.version == v {
        assert(b.all(|m: VersionManifest| !pred(m))) by {
            assert forall|k: int| 0 <= k < b.len() implies !pred(#[trigger] b[k]) by {
                assert(b[k] == s[p + k]);
            }
        }
        b.lemma_all_neg_filter_empty(pred);
        assert(b.filter(pred) =~= Seq::<VersionManifest>::empty());
        assert(a.filter(pred) + seq![x] + Seq::<VersionManifest>::empty() =~= (a.filter(pred) + Seq::<VersionManifest>::empty()).push(x));
    } else {
        assert(a.filter(pred) + Seq::<VersionManifest>::empty() + b.filter(pred) =~= a.filter(pred) + b.filter(pred));
    }
}

/// The published versions ordered by number; those with one number keep
/// the order they were listed in (`sort_by_key`).
pub fn sort_versions(v: Vec<VersionManifest>) -> (r: Vec<VersionManifest>)
    ensures
        versions_sorted(r@),
        forall|n: u32| #[trigger] with_version(r@, n) == with_version(v@, n),
        r@.to_multiset() == v@.to_multiset(),
{
    broadcast use vstd::seq_lib::to_multiset_build, vstd::seq_lib::to_multiset_insert;
    let ghost orig = v@;
    let mut rest = v;
    let mut r: Vec<VersionManifest> = Vec::new();
    let ghost mut done: int = 0;
    proof {
        assert(r@.to_multiset() =~= vstd::multiset::Multiset::empty()) by {
            broadcast use vstd::seq_lib::to_multiset_len;
            assert(r@.to_multiset().len() == 0);
        }
        assert forall|n: u32| #[trigger] with_version(r@, n) == with_version(orig.take(0), n) by {
            assert(r@ =~= orig.take(0));
        }
        assert(rest@ =~= orig.skip(0));
    }
    while rest.len() > 0
        invariant
            0 <= done <= orig.len(),
            rest@ == orig.skip(done),
            versions_sorted(r@),
            forall|n: u32| #[trigger] with_version(r@, n) == with_version(orig.take(done), n),
            r@.to_multiset().add(rest@.to_multiset()) == orig.to_multiset(),
        decreases rest@.len(),
    {
        let ghost before_rest = rest@;
        let x = rest.remove(0);
        proof {
            broadcast use vstd::multiset::group_multiset_axioms;
            vstd::seq_lib::to_multiset_remove(before_rest, 0);
            assert(before_rest.remove(0) == rest@);
            vstd::seq_lib::to_multiset_contains(before_rest, x);
            assert(before_rest.to_multiset().count(x) > 0);
            assert(rest@.to_multiset().insert(x) =~= before_rest.to_multiset());
            assert(x == orig[done]);
            assert(rest@ =~= orig.skip(done + 1));
        }
        let mut p: usize = 0;
        while p < r.len() && r[p].version <= x.version
            invariant
                p <= r@.len(),
                forall|k: int| 0 <= k < p ==> #[trigger] r@[k].version <= x.version,
            decreases r@.len() - p,
        {
            p = p + 1;
        }
        let ghost old_r = r@;
        proof {
            assert forall|k: int| p <= k < old_r.len() implies x.version < #[trigger] old_r[k].version by {
                assert(x.version < old_r[p as int].version);
                if k > p {
                    assert(old_r[p as int].version <= old_r[k].version);
                }
            }
        }
        r.insert(p, x);
        proof {
            broadcast use vstd::multiset::group_multiset_axioms;
            vstd::seq_lib::to_multiset_insert(old_r, p as int, x);
            assert(r@.to_multiset().add(rest@.to_multiset()) =~= old_r.to_multiset().add(before_rest.to_multiset()));
            assert(orig.take(done + 1) =~= orig.take(done).push(x));
            assert forall|n: u32| #[trigger] with_version(r@, n) == with_version(orig.take(done + 1), n) by {
                lemma_insert_with_version(old_r, p as int, x, n);
                orig.take(done).lemma_filter_push(x, |m: VersionManifest| m.version == n);
            }
            done = done + 1;
        }
        assert forall|i: int, j: int| 0 <= i < j < r@.len() implies #[trigger] r@[i].version <= #[trigger] r@[j].version by {
            if j < p {
                assert(r@[i] == old_r[i] && r@[j] == old_r[j]);
            } else if j == p {
                assert(r@[i] == old_r[i]);
            } else if i < p {
                assert(r@[i] == old_r[i] && r@[j] == old_r[j - 1]);
            } else if i == p {
                assert(r@[j] == old_r[j - 1]);
            } else {
                assert(r@[i] == old_r[i - 1] && r@[j] == old_r[j - 1]);
            }
        }
    }
    proof {
        assert(rest@.to_multiset() =~= vstd::multiset::Multiset::empty()) by {
            broadcast use vstd::seq_lib::to_multiset_len;
            assert(rest@.to_multiset().len() == 0);
        }
        broadcast use vstd::multiset::group_multiset_axioms;
        assert(r@.to_multiset().add(vstd::multiset::Multiset::empty()) =~= r@.to_multiset());
        assert(done == orig.len());
        assert(orig.take(done) =~= orig);
    }
    r
}

/// A draft's company without the flow `flow_id`, as deleting the flow leaves it.
pub fn remove_flow_id(company: &mut DraftCompany, flow_id: &str)
    ensures
        final(company)@.flows == old(company)@.flows.filter(|f: Seq<char>| f != flow_id@),
        final(company)@.id == old(company)@.id,
        final(company)@.name == old(company)@.name,
        final(company)@.description == old(company)@.description,
        final(company)@.prompt_set == old(company)@.prompt_set,
        final(company)@.knowledge_source == old(company)@.knowledge_source,
{
    let ghost pred = |f: Seq<char>| f != flow_id@;
    let ghost src = strings_view(company.flows@);
    let mut kept: Vec<String> = Vec::new();
    assert(strings_view(kept@) =~= src.take(0).filter(pred));
    let mut i: usize = 0;
    while i < company.flows.len()
        invariant
            i <= company.flows@.len(),
            pred == (|f: Seq<char>| f != flow_id@),
            src == strings_view(company.flows@),
            strings_view(kept@) == src.take(i as int).filter(pred),
        decreases company.flows@.len() - i,
    {
        proof {
            src.take(i as int).lemma_filter_push(src[i as int], pred);
            assert(src.take(i + 1) == src.take(i as int).push(src[i as int]));
        }
        let ghost before = kept@;
        if !crate::text::str_eq(company.flows[i].as_str(), flow_id) {
            kept.push(company.flows[i].clone());
            assert(strings_view(kept@) =~= strings_view(before).push(src[i as int]));
        }
        i = i + 1;
    }
    assert(src.take(src.len() as int) == src);
    company.flows = kept;
}

/// The manifest a draft has: the one read, or a fresh one when none could be read.
pub fn manifest_or_new(read: Option<DraftManifest>, project_id: &str) -> (m: DraftManifest)
    ensures
        match read {
            Some(r) => m@ == r@,
            None => m@ == DraftManifest::fresh(project_id@),
        },
{
    match read {
        Some(m) => m,
        None => DraftManifest::new(project_id.to_string()),
    }
}

impl DraftManifest {
    pub open spec fn fresh(project_id: Seq<char>) -> ManifestView {
        ManifestView {
            project_id,
            dirty: false,
            edited_at: None,
            published_version: 0,
            bootstrapped_at: None,
        }
    }

    /// Records an edit made at `now`: the draft is dirty since then.
    pub fn mark_edited(&mut self, now: String)
        ensures
            final(self)@ == (ManifestView { dirty: true, edited_at: Some(now@), ..old(self)@ }),
    {
        self.dirty = true;
        self.edited_at = Some(now);
    }

    /// Records that the draft was bootstrapped at `now`, unless it already
    /// was; says whether the manifest changed.
    pub fn mark_bootstrapped(&mut self, now: String) -> (changed: bool)
        ensures
            changed == (old(self)@.bootstrapped_at is None),
            changed ==> final(self)@ == (ManifestView { bootstrapped_at: Some(now@), ..old(self)@ }),
            !changed ==> final(self)@ == old(self)@,
    {
        if self.bootstrapped_at.is_none() {
            self.bootstrapped_at = Some(now);
            true
        } else {
            false
        }
    }

    /// The manifest of a draft just made from a published company: clean, at
    /// the latest published version.
    pub fn bootstrapped(project_id: String, published_version: u32, now: String) -> (m: DraftManifest)
        ensures
            m@ == (ManifestView {
                project_id: project_id@,
                dirty: false,
                edited_at: None,
                published_version,
                bootstrapped_at: Some(now@),
            }),
    {
        DraftManifest {
            project_id,
            dirty: false,
            edited_at: None,
            published_version,
            bootstrapped_at: Some(now),
        }
    }

    /// The manifest of a new project: dirty, never published.
    pub fn created(project_id: String, now: String) -> (m: DraftManifest)
        ensures
            m@ == (ManifestView {
                project_id: project_id@,
                dirty: true,
                edited_at: Some(now@),
                published_version: 0,
                bootstrapped_at: Some(now@),
            }),
    {
        let edited = now.clone();
        DraftManifest {
            project_id,
            dirty: true,
            edited_at: Some(edited),
            published_version: 0,
            bootstrapped_at: Some(now),
        }
    }
}

} // verus!
