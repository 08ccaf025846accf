//! The lexicographic order of texts, and sorting lists of names by it.

use vstd::prelude::*;
use vstd::multiset::Multiset;

use crate::companies::strings_view;
use crate::text::{seq_less, str_less};

verus! {

/// `a` comes before `b` or equals it.
pub open spec fn seq_le(a: Seq<char>, b: Seq<char>) -> bool {
    seq_less(a, b) || a == b
}

/// Each text of the list comes before or equals every later one.
pub open spec fn texts_sorted(s: Seq<Seq<char>>) -> bool {
    forall|i: int, j: int| 0 <= i < j < s.len() ==> seq_le(#[trigger] s[i], #[trigger] s[j])
}

pub proof fn lemma_seq_less_irreflexive(a: Seq<char>)
    ensures
        !seq_less(a, a),
    decreases a.len(),
{
    if a.len() > 0 {
        lemma_seq_less_irreflexive(a.drop_first());
    }
}

pub proof fn lemma_seq_less_asymmetric(a: Seq<char>, b: Seq<char>)
    ensures
        seq_less(a, b) ==> !seq_less(b, a),
    decreases a.len(),
{
    if a.len() > 0 && b.len() > 0 && a[0] == b[0] {
        lemma_seq_less_asymmetric(a.drop_first(), b.drop_first());
    }
}

pub proof fn lemma_seq_less_transitive(a: Seq<char>, b: Seq<char>, c: Seq<char>)
    requires
        seq_less(a, b),
        seq_less(b, c),
    ensures
        seq_less(a, c),
    decreases a.len(),
{
    if a.len() > 0 && b.len() > 0 && c.len() > 0 && a[0] == b[0] && b[0] == c[0] {
        lemma_seq_less_transitive(a.drop_first(), b.drop_first(), c.drop_first());
    }
}

pub proof fn lemma_seq_less_total(a: Seq<char>, b: Seq<char>)
    ensures
        a == b || seq_less(a, b) || seq_less(b, a),
    decreases a.len(),
{
    if a.len() > 0 && b.len() > 0 && a[0] == b[0] {
        lemma_seq_less_total(a.drop_first(), b.drop_first());
        if a.drop_first() == b.drop_first() {
            assert(a =~= seq![a[0]] + a.drop_first());
            assert(b =~= seq![b[0]] + b.drop_first());
        }
    } else if a.len() == 0 && b.len() == 0 {
        assert(a =~= b);
    } else if a.len() > 0 && b.len() > 0 {
        if (a[0] as u32) == (b[0] as u32) {
            vstd::utf8::char_u32_cast(a[0], a[0] as u32);
            vstd::utf8::char_u32_cast(b[0], b[0] as u32);
        }
    }
}

/// The order facts a sort needs, for every three texts.
pub proof fn lemma_seq_order()
    ensures
        forall|a: Seq<char>| !seq_less(a, a),
        forall|a: Seq<char>, b: Seq<char>| seq_less(a, b) ==> !#[trigger] seq_less(b, a),
        forall|a: Seq<char>, b: Seq<char>| #![trigger seq_less(a, b)] a == b || seq_less(a, b) || seq_less(b, a),
        forall|a: Seq<char>, b: Seq<char>, c: Seq<char>|
            #![trigger seq_less(a, b), seq_less(b, c)]
            seq_less(a, b) && seq_less(b, c) ==> seq_less(a, c),
{
    assert forall|a: Seq<char>| !seq_less(a, a) by {
        lemma_seq_less_irreflexive(a);
    }
    assert forall|a: Seq<char>, b: Seq<char>| seq_less(a, b) implies !#[trigger] seq_less(b, a) by {
        lemma_seq_less_asymmetric(a, b);
    }
    assert forall|a: Seq<char>, b: Seq<char>| #![trigger seq_less(a, b)] a == b || seq_less(a, b) || seq_less(b, a) by {
        lemma_seq_less_total(a, b);
    }
    assert forall|a: Seq<char>, b: Seq<char>, c: Seq<char>|
        #![trigger seq_less(a, b), seq_less(b, c)]
        seq_less(a, b) && seq_less(b, c) implies seq_less(a, c) by {
        lemma_seq_less_transitive(a, b, c);
    }
}

/// The position at which `x` goes into the sorted `r`: after every text that
/// does not come after it.
pub fn insertion_point(r: &Vec<String>, x: &String) -> (p: usize)
    requires
        texts_sorted(strings_view(r@)),
    ensures
        p <= r@.len(),
        forall|k: int| 0 <= k < p ==> seq_le(#[trigger] r@[k]@, x@),
        forall|k: int| p <= k < r@.len() ==> seq_less(x@, #[trigger] r@[k]@),
{
    let mut p: usize = 0;
    while p < r.len() && !str_less(x.as_str(), r[p].as_str())
        invariant
            p <= r@.len(),
            texts_sorted(strings_view(r@)),
            forall|k: int| 0 <= k < p ==> seq_le(#[trigger] r@[k]@, x@),
        decreases r@.len() - p,
    {
        proof {
            lemma_seq_order();
            let a = r@[p as int]@;
            assert(a == x@ || seq_less(a, x@) || seq_less(x@, a));
        }
        p = p + 1;
    }
    proof {
        lemma_seq_order();
        assert forall|k: int| p <= k < r@.len() implies seq_less(x@, #[trigger] r@[k]@) by {
            assert(seq_less(x@, r@[p as int]@));
            if k > p {
                assert(strings_view(r@)[p as int] == r@[p as int]@);
                assert(strings_view(r@)[k] == r@[k]@);
                assert(seq_le(r@[p as int]@, r@[k]@));
                if seq_less(r@[p as int]@, r@[k]@) {
                    assert(seq_less(x@, r@[k]@));
                }
            }
        }
    }
    p
}

/// The names of `v` in lexicographic order (`sort` on a list of strings).
pub fn sort_strings(v: Vec<String>) -> (r: Vec<String>)
    ensures
        texts_sorted(strings_view(r@)),
        strings_view(r@).to_multiset() == strings_view(v@).to_multiset(),
{
    broadcast use vstd::seq_lib::to_multiset_build, vstd::seq_lib::to_multiset_insert;
    let ghost orig = strings_view(v@);
    let mut rest = v;
    let mut r: Vec<String> = Vec::new();
    proof {
        assert(strings_view(r@).to_multiset() =~= Multiset::empty()) by {
            broadcast use vstd::seq_lib::to_multiset_len;
            assert(strings_view(r@).to_multiset().len() == 0);
        }
    }
    while rest.len() > 0
        invariant
            texts_sorted(strings_view(r@)),
            strings_view(r@).to_multiset().add(strings_view(rest@).to_multiset()) == orig.to_multiset(),
        decreases rest@.len(),
    {
        let ghost before = rest@;
        let x = rest.pop().unwrap();
        proof {
            assert(before == rest@.push(x));
        }
        let p = insertion_point(&r, &x);
        let ghost old_r = r@;
        r.insert(p, x);
        proof {
            broadcast use vstd::multiset::group_multiset_axioms;
            assert(strings_view(r@) =~= strings_view(old_r).insert(p as int, x@));
            assert(strings_view(before) =~= strings_view(rest@).push(x@));
            vstd::seq_lib::to_multiset_insert(strings_view(old_r), p as int, x@);
            vstd::seq_lib::to_multiset_build(strings_view(rest@), x@);
            assert(strings_view(r@).to_multiset().add(strings_view(rest@).to_multiset())
                =~= strings_view(old_r).to_multiset().add(strings_view(before).to_multiset()));
            lemma_seq_order();
            let s = strings_view(r@);
            assert forall|i: int, j: int| 0 <= i < j < s.len() implies seq_le(#[trigger] s[i], #[trigger] s[j]) by {
                let o = strings_view(old_r);
                if j < p {
                    assert(s[i] == o[i] && s[j] == o[j]);
                } else if j == p {
                    assert(s[i] == old_r[i]@);
                } else if i < p {
                    assert(s[i] == o[i] && s[j] == o[j - 1]);
                } else if i == p {
                    assert(s[j] == old_r[j - 1]@);
                    assert(seq_less(x@, old_r[j - 1]@));
                } else {
                    assert(s[i] == o[i - 1] && s[j] == o[j - 1]);
                }
            }
        }
    }
    proof {
        assert(strings_view(rest@).to_multiset() =~= Multiset::empty()) by {
            broadcast use vstd::seq_lib::to_multiset_len;
            assert(strings_view(rest@).to_multiset().len() == 0);
        }
        assert(strings_view(r@).to_multiset().add(Multiset::empty()) =~= strings_view(r@).to_multiset());
    }
    r
}

/// Each text of the list comes strictly before every later one: sorted, and no text twice.
pub open spec fn texts_strictly_sorted(s: Seq<Seq<char>>) -> bool {
    forall|i: int, j: int| 0 <= i < j < s.len() ==> seq_less(#[trigger] s[i], #[trigger] s[j])
}

/// Adds `x` to a strictly sorted list unless it holds it already (a set of
/// names kept in order).
pub fn insert_sorted_unique(r: &mut Vec<String>, x: String)
    requires
        texts_strictly_sorted(strings_view(old(r)@)),
    ensures
        texts_strictly_sorted(strings_view(final(r)@)),
        strings_view(final(r)@).to_set() == strings_view(old(r)@).to_set().insert(x@),
{
    proof { lemma_seq_order(); }
    let ghost old_r = r@;
    let ghost ov = strings_view(old_r);
    assert(texts_sorted(ov)) by {
        assert forall|i: int, j: int| 0 <= i < j < ov.len() implies seq_le(#[trigger] ov[i], #[trigger] ov[j]) by {
            assert(seq_less(ov[i], ov[j]));
        }
    }
    let p = insertion_point(r, &x);
    if p > 0 && crate::text::str_eq(r[p - 1].as_str(), x.as_str()) {
        assert(ov[p - 1] == x@);
        assert(ov.to_set().insert(x@) =~= ov.to_set());
        return;
    }
    proof {
        if p > 0 {
            assert(seq_le(old_r[p - 1]@, x@));
            assert(seq_less(old_r[p - 1]@, x@));
        }
    }
    r.insert(p, x);
    proof {
        let s = strings_view(r@);
        assert(s =~= ov.insert(p as int, x@));
        assert forall|i: int, j: int| 0 <= i < j < s.len() implies seq_less(#[trigger] s[i], #[trigger] s[j]) by {
            if j < p {
                assert(s[i] == ov[i] && s[j] == ov[j]);
            } else if j == p {
                assert(s[i] == ov[i]);
                if i < p - 1 {
                    assert(seq_less(ov[i], ov[p - 1]));
                }
            } else if i < p {
                assert(s[i] == ov[i] && s[j] == ov[j - 1]);
            } else if i == p {
                assert(s[j] == old_r[j - 1]@);
            } else {
                assert(s[i] == ov[i - 1] && s[j] == ov[j - 1]);
            }
        }
        assert(s.to_set() =~= ov.to_set().insert(x@)) by {
            assert forall|a: Seq<char>| s.to_set().contains(a) <==> ov.to_set().insert(x@).contains(a) by {
                if s.contains(a) {
                    let k = s.index_of(a);
                    if k < p {
                        assert(ov[k] == a);
                    } else if k > p {
                        assert(ov[k - 1] == a);
                    }
                }
                if ov.contains(a) {
                    let k = ov.index_of(a);
                    if k < p {
                        assert(s[k] == a);
                    } else {
                        assert(s[k + 1] == a);
                    }
                }
                if a == x@ {
                    assert(s[p as int] == a);
                }
            }
        }
    }
}

} // verus!
