//! Knowledge source files under the data root's `company` directory.

use vstd::prelude::*;
use vstd::multiset::Multiset;
use vstd::string::StringExecFns;

use crate::dto::knowledge::{KnowledgeSectionDto, KnowledgeSourceDto};
use crate::errors::ApiError;
use crate::handlers::studio::rejects;
use crate::sorting::{lemma_seq_order, seq_le};
use crate::studio::convert::field_or;
use crate::studio::types::opt_str_view;
use crate::text::str_less;
use crate::values::{
    lemma_yaml_entries_view, yaml_as_mapping, yaml_as_mapping_ref, yaml_as_str, yaml_as_str_ref, yaml_get,
    yaml_get_ref, yaml_entries_view, YamlValue, YamlView,
};

verus! {

pub struct SectionView {
    pub id: Seq<char>,
    pub description: Option<Seq<char>>,
    pub content: Seq<char>,
}

pub open spec fn section_view(s: KnowledgeSectionDto) -> SectionView {
    SectionView { id: s.id@, description: opt_str_view(s.description), content: s.content@ }
}

/// The section that one entry of a knowledge file's `sections` mapping
/// describes: its key as id (empty when not text), its description and its content.
pub open spec fn section_of(key: YamlView, value: YamlView) -> SectionView {
    SectionView {
        id: match yaml_as_str(key) {
            Some(s) => s,
            None => Seq::empty(),
        },
        description: match yaml_get(value, "description"@) {
            Some(d) => yaml_as_str(d),
            None => None,
        },
        content: field_or(value, "content"@, Seq::empty()),
    }
}

/// The entries of a knowledge file's `sections` mapping.
pub open spec fn sections_of(v: YamlView) -> Seq<(YamlView, YamlView)> {
    match yaml_get(v, "sections"@) {
        Some(s) => match yaml_as_mapping(s) {
            Some(m) => m,
            None => Seq::empty(),
        },
        None => Seq::empty(),
    }
}

/// Sections ordered by id.
pub open spec fn sections_sorted(s: Seq<SectionView>) -> bool {
    forall|i: int, j: int| 0 <= i < j < s.len() ==> seq_le(#[trigger] s[i].id, #[trigger] s[j].id)
}

pub open spec fn sections_view(s: Seq<KnowledgeSectionDto>) -> Seq<SectionView> {
    s.map_values(|x: KnowledgeSectionDto| section_view(x))
}

/// The sections of a list with the given id, in order.
pub open spec fn sections_with_id(s: Seq<SectionView>, id: Seq<char>) -> Seq<SectionView> {
    s.filter(|x: SectionView| x.id == id)
}

/// Inserting a section before every one whose id comes after its own
/// appends it to those with its id.
proof fn lemma_insert_with_id(s: Seq<SectionView>, p: int, x: SectionView, id: Seq<char>)
    requires
        0 <= p <= s.len(),
        forall|k: int| p <= k < s.len() ==> crate::text::seq_less(x.id, #[trigger] s[k].id),
    ensures
        sections_with_id(s.insert(p, x), id) == if x.id == id {
            sections_with_id(s, id).push(x)
        } else {
            sections_with_id(s, id)
        },
{
    let pred = |m: SectionView| m.id == id;
    let a = s.take(p);
    let b = s.skip(p);
    assert(s =~= a + b);
    assert(s.insert(p, x) =~= a + seq![x] + b);
    Seq::filter_distributes_over_add(a, b, pred);
    Seq::filter_distributes_over_add(a + seq![x], b, pred);
    Seq::filter_distributes_over_add(a, seq![x], pred);
    Seq::<SectionView>::empty().lemma_filter_push(x, pred);
    assert(seq![x] =~= Seq::<SectionView>::empty().push(x));
    assert(Seq::<SectionView>::empty().filter(pred) =~= Seq::<SectionView>::empty()) by {
        reveal(Seq::filter);
    }
    if x.id == id {
        assert(b.all(|m: SectionView| !pred(m))) by {
            assert forall|k: int| 0 <= k < b.len() implies !pred(#[trigger] b[k]) by {
                assert(b[k] == s[p + k]);
                crate::sorting::lemma_seq_less_irreflexive(x.id);
            }
        }
        b.lemma_all_neg_filter_empty(pred);
        assert(b.filter(pred) =~= Seq::<SectionView>::empty());
        assert(a.filter(pred) + seq![x] + Seq::<SectionView>::empty() =~= (a.filter(pred) + Seq::<SectionView>::empty()).push(x));
    } else {
        assert(a.filter(pred) + Seq::<SectionView>::empty() + b.filter(pred) =~= a.filter(pred) + b.filter(pred));
    }
}

fn section_exec(key: &YamlValue, value: &YamlValue) -> (s: KnowledgeSectionDto)
    ensures
        section_view(s) == section_of(key@, value@),
{
    let id = match yaml_as_str_ref(key) {
        Some(k) => k.to_string(),
        None => String::new(),
    };
    let description = match yaml_get_ref(value, "description") {
        Some(d) => match yaml_as_str_ref(d) {
            Some(t) => Some(t.to_string()),
            None => None,
        },
        None => None,
    };
    let content = match yaml_get_ref(value, "content") {
        Some(c) => match yaml_as_str_ref(c) {
            Some(t) => t.to_string(),
            None => String::new(),
        },
        None => String::new(),
    };
    KnowledgeSectionDto { id, description, content }
}

/// The sections of a knowledge file, ordered by id; those with one id keep
/// the file's order (a stable sort). None without a `sections` mapping.
pub fn parse_sections(value: &YamlValue) -> (r: Vec<KnowledgeSectionDto>)
    ensures
        sections_sorted(sections_view(r@)),
        forall|id: Seq<char>| #[trigger] sections_with_id(sections_view(r@), id)
            == sections_with_id(sections_of(value@).map_values(|e: (YamlView, YamlView)| section_of(e.0, e.1)), id),
        sections_view(r@).to_multiset()
            == sections_of(value@).map_values(|e: (YamlView, YamlView)| section_of(e.0, e.1)).to_multiset(),
{
    broadcast use vstd::seq_lib::to_multiset_build, vstd::seq_lib::to_multiset_insert;
    let empty: Vec<(YamlValue, YamlValue)> = Vec::new();
    let entries = match yaml_get_ref(value, "sections") {
        Some(s) => match yaml_as_mapping_ref(s) {
            Some(m) => m,
            None => &empty,
        },
        None => &empty,
    };
    proof {
        lemma_yaml_entries_view(entries@);
        assert(yaml_entries_view(empty@) =~= Seq::<(YamlView, YamlView)>::empty());
    }
    let ghost ev = yaml_entries_view(entries@);
    let ghost want = ev.map_values(|e: (YamlView, YamlView)| section_of(e.0, e.1));
    assert(want == sections_of(value@).map_values(|e: (YamlView, YamlView)| section_of(e.0, e.1)));
    let mut r: Vec<KnowledgeSectionDto> = Vec::new();
    proof {
        assert(sections_view(r@).to_multiset() =~= Multiset::empty()) by {
            broadcast use vstd::seq_lib::to_multiset_len;
            assert(sections_view(r@).to_multiset().len() == 0);
        }
        assert forall|id: Seq<char>| #[trigger] sections_with_id(sections_view(r@), id)
            == sections_with_id(want.take(0), id) by {
            assert(sections_view(r@) =~= want.take(0));
        }
        assert(want.take(0).to_multiset() =~= Multiset::empty()) by {
            broadcast use vstd::seq_lib::to_multiset_len;
            assert(want.take(0).to_multiset().len() == 0);
        }
    }
    let mut i: usize = 0;
    while i < entries.len()
        invariant
            i <= entries@.len(),
            ev == yaml_entries_view(entries@),
            ev.len() == entries@.len(),
            want == ev.map_values(|e: (YamlView, YamlView)| section_of(e.0, e.1)),
            forall|j: int| 0 <= j < entries@.len() ==> #[trigger] ev[j] == (entries@[j].0@, entries@[j].1@),
            sections_sorted(sections_view(r@)),
            sections_view(r@).to_multiset() == want.take(i as int).to_multiset(),
            forall|id: Seq<char>| #[trigger] sections_with_id(sections_view(r@), id)
                == sections_with_id(want.take(i as int), id),
        decreases entries@.len() - i,
    {
        let x = section_exec(&entries[i].0, &entries[i].1);
        let ghost xv = section_view(x);
        assert(xv == want[i as int]);
        let ghost old_r = r@;
        let ghost ov = sections_view(old_r);
        let mut p: usize = 0;
        while p < r.len() && !str_less(x.id.as_str(), r[p].id.as_str())
            invariant
                p <= r@.len(),
                r@ == old_r,
                xv == section_view(x),
                ov == sections_view(old_r),
                sections_sorted(ov),
                forall|k: int| 0 <= k < p ==> seq_le(#[trigger] ov[k].id, xv.id),
            decreases r@.len() - p,
        {
            proof {
                lemma_seq_order();
                assert(ov[p as int].id == r@[p as int].id@);
                let a = ov[p as int].id;
                assert(a == xv.id || crate::text::seq_less(a, xv.id) || crate::text::seq_less(xv.id, a));
            }
            p = p + 1;
        }
        proof {
            lemma_seq_order();
            assert forall|k: int| p <= k < ov.len() implies crate::text::seq_less(xv.id, #[trigger] ov[k].id) by {
                assert(ov[p as int].id == r@[p as int].id@);
                assert(crate::text::seq_less(xv.id, ov[p as int].id));
                if k > p {
                    assert(seq_le(ov[p as int].id, ov[k].id));
                    if crate::text::seq_less(ov[p as int].id, ov[k].id) {
                        assert(crate::text::seq_less(xv.id, ov[k].id));
                    }
                }
            }
        }
        r.insert(p, x);
        proof {
            lemma_seq_order();
            let s = sections_view(r@);
            assert(s =~= ov.insert(p as int, xv));
            vstd::seq_lib::to_multiset_insert(ov, p as int, xv);
            assert(want.take(i + 1) =~= want.take(i as int).push(xv));
            vstd::seq_lib::to_multiset_build(want.take(i as int), xv);
            assert forall|id: Seq<char>| #[trigger] sections_with_id(s, id) == sections_with_id(want.take(i + 1), id) by {
                lemma_insert_with_id(ov, p as int, xv, id);
                want.take(i as int).lemma_filter_push(xv, |m: SectionView| m.id == id);
            }
            assert forall|a: int, b: int| 0 <= a < b < s.len() implies seq_le(#[trigger] s[a].id, #[trigger] s[b].id) by {
                if b < p {
                    assert(s[a] == ov[a] && s[b] == ov[b]);
                } else if b == p {
                    assert(s[a] == ov[a]);
                } else if a < p {
                    assert(s[a] == ov[a] && s[b] == ov[b - 1]);
                } else if a == p {
                    assert(s[b] == ov[b - 1]);
                } else {
                    assert(s[a] == ov[a - 1] && s[b] == ov[b - 1]);
                }
            }
        }
        i = i + 1;
    }
    assert(want.take(entries@.len() as int) == want);
    r
}

/// A knowledge source in the list: its name and its path under the data root.
pub fn knowledge_source_entry(name: String, section_count: usize) -> (r: KnowledgeSourceDto)
    ensures
        r.name@ == name@,
        r.path@ == "company/"@ + name@ + ".yaml"@,
        r.section_count == section_count,
{
    let mut path = "company/".to_string();
    path.append(name.as_str());
    path.append(".yaml");
    KnowledgeSourceDto { name, path, section_count }
}

/// The error for an unknown knowledge source.
pub fn knowledge_source_not_found(name: &str) -> (e: ApiError)
    ensures
        rejects(e, "knowledge source not found: "@ + name@),
{
    ApiError::invalid_request("knowledge source not found: ".to_string().concat(name))
}

} // verus!
