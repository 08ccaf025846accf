//! Plain models of JSON and YAML documents, the conversions between them that
//! serialization performs, and the lookups that the studio reads them with.
//!
//! JSON objects keep their entries ordered by key with unique keys (the order in
//! which a JSON map iterates); YAML mappings keep insertion order.

use vstd::prelude::*;

use crate::text::{decimal, i64_to_decimal, seq_less, signed_decimal, str_eq, str_less, u64_to_decimal};

verus! {

/// A number of a JSON or YAML document. A float is held as its IEEE-754 bits together
/// with the text that stands for it when it is used as the key of a JSON object.
pub enum Number {
    PosInt(u64),
    NegInt(i64),
    Float { bits: u64, text: String },
}

pub enum JsonValue {
    Null,
    Bool(bool),
    Number(Number),
    String(String),
    Array(Vec<JsonValue>),
    Object(Vec<(String, JsonValue)>),
}

pub enum YamlValue {
    Null,
    Bool(bool),
    Number(Number),
    String(String),
    Sequence(Vec<YamlValue>),
    Mapping(Vec<(YamlValue, YamlValue)>),
    Tagged(String, Box<YamlValue>),
}

pub enum NumberView {
    PosInt(u64),
    NegInt(i64),
    Float(u64, Seq<char>),
}

pub enum JsonView {
    Null,
    Bool(bool),
    Number(NumberView),
    String(Seq<char>),
    Array(Seq<JsonView>),
    Object(Seq<(Seq<char>, JsonView)>),
}

pub enum YamlView {
    Null,
    Bool(bool),
    Number(NumberView),
    String(Seq<char>),
    Sequence(Seq<YamlView>),
    Mapping(Seq<(YamlView, YamlView)>),
    Tagged(Seq<char>, Box<YamlView>),
}

impl View for Number {
    type V = NumberView;

    open spec fn view(&self) -> NumberView {
        match self {
            Number::PosInt(n) => NumberView::PosInt(*n),
            Number::NegInt(n) => NumberView::NegInt(*n),
            Number::Float { bits, text } => NumberView::Float(*bits, text@),
        }
    }
}

pub open spec fn json_view(v: JsonValue) -> JsonView
    decreases v,
{
    match v {
        JsonValue::Null => JsonView::Null,
        JsonValue::Bool(b) => JsonView::Bool(b),
        JsonValue::Number(n) => JsonView::Number(n@),
        JsonValue::String(s) => JsonView::String(s@),
        JsonValue::Array(items) => JsonView::Array(json_seq_view(items@)),
        JsonValue::Object(entries) => JsonView::Object(json_entries_view(entries@)),
    }
}

pub open spec fn json_seq_view(s: Seq<JsonValue>) -> Seq<JsonView>
    decreases s,
{
    if s.len() == 0 {
        Seq::empty()
    } else {
        json_seq_view(s.drop_last()).push(json_view(s.last()))
    }
}

pub open spec fn json_entries_view(s: Seq<(String, JsonValue)>) -> Seq<(Seq<char>, JsonView)>
    decreases s,
{
    if s.len() == 0 {
        Seq::empty()
    } else {
        json_entries_view(s.drop_last()).push((s.last().0@, json_view(s.last().1)))
    }
}

impl View for JsonValue {
    type V = JsonView;

    open spec fn view(&self) -> JsonView {
        json_view(*self)
    }
}

pub open spec fn yaml_view(v: YamlValue) -> YamlView
    decreases v,
{
    match v {
        YamlValue::Null => YamlView::Null,
        YamlValue::Bool(b) => YamlView::Bool(b),
        YamlValue::Number(n) => YamlView::Number(n@),
        YamlValue::String(s) => YamlView::String(s@),
        YamlValue::Sequence(items) => YamlView::Sequence(yaml_seq_view(items@)),
        YamlValue::Mapping(entries) => YamlView::Mapping(yaml_entries_view(entries@)),
        YamlValue::Tagged(tag, inner) => YamlView::Tagged(tag@, Box::new(yaml_view(*inner))),
    }
}

pub open spec fn yaml_seq_view(s: Seq<YamlValue>) -> Seq<YamlView>
    decreases s,
{
    if s.len() == 0 {
        Seq::empty()
    } else {
        yaml_seq_view(s.drop_last()).push(yaml_view(s.last()))
    }
}

pub open spec fn yaml_entries_view(s: Seq<(YamlValue, YamlValue)>) -> Seq<(YamlView, YamlView)>
    decreases s,
{
    if s.len() == 0 {
        Seq::empty()
    } else {
        yaml_entries_view(s.drop_last()).push((yaml_view(s.last().0), yaml_view(s.last().1)))
    }
}

impl View for YamlValue {
    type V = YamlView;

    open spec fn view(&self) -> YamlView {
        yaml_view(*self)
    }
}

pub fn clone_number(n: &Number) -> (r: Number)
    ensures
        r@ == n@,
{
    match n {
        Number::PosInt(v) => Number::PosInt(*v),
        Number::NegInt(v) => Number::NegInt(*v),
        Number::Float { bits, text } => Number::Float { bits: *bits, text: text.clone() },
    }
}

/// A deep copy of a JSON value.
pub fn clone_json(v: &JsonValue) -> (r: JsonValue)
    ensures
        r@ == v@,
    decreases v,
{
    match v {
        JsonValue::Null => JsonValue::Null,
        JsonValue::Bool(b) => JsonValue::Bool(*b),
        JsonValue::Number(n) => JsonValue::Number(clone_number(n)),
        JsonValue::String(s) => JsonValue::String(s.clone()),
        JsonValue::Array(items) => {
            let mut out: Vec<JsonValue> = Vec::new();
            let mut i: usize = 0;
            while i < items.len()
                invariant
                    i <= items@.len(),
                    *v == JsonValue::Array(*items),
                    json_seq_view(out@) == json_seq_view(items@.take(i as int)),
                decreases items@.len() - i,
            {
                proof {
assert(decreases_to!(*v => (*v)->Array_0));
                    assert(decreases_to!((*v)->Array_0 => (*v)->Array_0@));
                    assert(decreases_to!((*v)->Array_0@ => (*v)->Array_0@[i as int]));
                    assert(decreases_to!(*v => items@[i as int]));
                }
                let c = clone_json(&items[i]);
                proof {
                    assert(out@.push(c).drop_last() == out@);
                    assert(items@.take(i + 1).drop_last() == items@.take(i as int));
                }
                out.push(c);
                i = i + 1;
            }
            assert(items@.take(items@.len() as int) == items@);
            JsonValue::Array(out)
        },
        JsonValue::Object(entries) => {
            let mut out: Vec<(String, JsonValue)> = Vec::new();
            let mut i: usize = 0;
            while i < entries.len()
                invariant
                    i <= entries@.len(),
                    *v == JsonValue::Object(*entries),
                    json_entries_view(out@) == json_entries_view(entries@.take(i as int)),
                decreases entries@.len() - i,
            {
                proof {
assert(decreases_to!(*v => (*v)->Object_0));
                    assert(decreases_to!((*v)->Object_0 => (*v)->Object_0@));
                    assert(decreases_to!((*v)->Object_0@ => (*v)->Object_0@[i as int]));
                    assert(decreases_to!((*v)->Object_0@[i as int] => (*v)->Object_0@[i as int].1));
                    assert(decreases_to!(*v => entries@[i as int].1));
                }
                let k = entries[i].0.clone();
                let c = clone_json(&entries[i].1);
                proof {
                    assert(out@.push((k, c)).drop_last() == out@);
                    assert(entries@.take(i + 1).drop_last() == entries@.take(i as int));
                }
                out.push((k, c));
                i = i + 1;
            }
            assert(entries@.take(entries@.len() as int) == entries@);
            JsonValue::Object(out)
        },
    }
}

/// A deep copy of a YAML value.
pub fn clone_yaml(v: &YamlValue) -> (r: YamlValue)
    ensures
        r@ == v@,
    decreases v,
{
    match v {
        YamlValue::Null => YamlValue::Null,
        YamlValue::Bool(b) => YamlValue::Bool(*b),
        YamlValue::Number(n) => YamlValue::Number(clone_number(n)),
        YamlValue::String(s) => YamlValue::String(s.clone()),
        YamlValue::Sequence(items) => {
            let mut out: Vec<YamlValue> = Vec::new();
            let mut i: usize = 0;
            while i < items.len()
                invariant
                    i <= items@.len(),
                    *v == YamlValue::Sequence(*items),
                    yaml_seq_view(out@) == yaml_seq_view(items@.take(i as int)),
                decreases items@.len() - i,
            {
                proof {
                    assert(decreases_to!(*v => (*v)->Sequence_0));
                    assert(decreases_to!((*v)->Sequence_0 => (*v)->Sequence_0@));
                    assert(decreases_to!((*v)->Sequence_0@ => (*v)->Sequence_0@[i as int]));
                    assert(decreases_to!(*v => items@[i as int]));
                }
                let c = clone_yaml(&items[i]);
                proof {
                    assert(out@.push(c).drop_last() == out@);
                    assert(items@.take(i + 1).drop_last() == items@.take(i as int));
                }
                out.push(c);
                i = i + 1;
            }
            assert(items@.take(items@.len() as int) == items@);
            YamlValue::Sequence(out)
        },
        YamlValue::Mapping(entries) => {
            let mut out: Vec<(YamlValue, YamlValue)> = Vec::new();
            let mut i: usize = 0;
            while i < entries.len()
                invariant
                    i <= entries@.len(),
                    *v == YamlValue::Mapping(*entries),
                    yaml_entries_view(out@) == yaml_entries_view(entries@.take(i as int)),
                decreases entries@.len() - i,
            {
                proof {
assert(decreases_to!(*v => (*v)->Mapping_0));
                    assert(decreases_to!((*v)->Mapping_0 => (*v)->Mapping_0@));
                    assert(decreases_to!((*v)->Mapping_0@ => (*v)->Mapping_0@[i as int]));
                    assert(decreases_to!((*v)->Mapping_0@[i as int] => (*v)->Mapping_0@[i as int].0));
                    assert(decreases_to!((*v)->Mapping_0@[i as int] => (*v)->Mapping_0@[i as int].1));
                    assert(decreases_to!(*v => entries@[i as int].0));
                    assert(decreases_to!(*v => entries@[i as int].1));
                }
                let k = clone_yaml(&entries[i].0);
                let c = clone_yaml(&entries[i].1);
                proof {
                    assert(out@.push((k, c)).drop_last() == out@);
                    assert(entries@.take(i + 1).drop_last() == entries@.take(i as int));
                }
                out.push((k, c));
                i = i + 1;
            }
            assert(entries@.take(entries@.len() as int) == entries@);
            YamlValue::Mapping(out)
        },
        YamlValue::Tagged(tag, inner) => {
            let c = clone_yaml(inner);
            YamlValue::Tagged(tag.clone(), Box::new(c))
        },
    }
}

// ---------------------------------------------------------------------------
// Views of sequences, element by element.

pub proof fn lemma_json_seq_view(s: Seq<JsonValue>)
    ensures
        json_seq_view(s).len() == s.len(),
        forall|j: int| 0 <= j < s.len() ==> #[trigger] json_seq_view(s)[j] == json_view(s[j]),
    decreases s.len(),
{
    if s.len() > 0 {
        lemma_json_seq_view(s.drop_last());
    }
}

pub proof fn lemma_json_entries_view(s: Seq<(String, JsonValue)>)
    ensures
        json_entries_view(s).len() == s.len(),
        forall|j: int|
            0 <= j < s.len() ==> #[trigger] json_entries_view(s)[j] == (s[j].0@, json_view(s[j].1)),
    decreases s.len(),
{
    if s.len() > 0 {
        lemma_json_entries_view(s.drop_last());
    }
}

pub proof fn lemma_yaml_seq_view(s: Seq<YamlValue>)
    ensures
        yaml_seq_view(s).len() == s.len(),
        forall|j: int| 0 <= j < s.len() ==> #[trigger] yaml_seq_view(s)[j] == yaml_view(s[j]),
    decreases s.len(),
{
    if s.len() > 0 {
        lemma_yaml_seq_view(s.drop_last());
    }
}

pub proof fn lemma_yaml_entries_view(s: Seq<(YamlValue, YamlValue)>)
    ensures
        yaml_entries_view(s).len() == s.len(),
        forall|j: int|
            0 <= j < s.len() ==> #[trigger] yaml_entries_view(s)[j] == (
                yaml_view(s[j].0),
                yaml_view(s[j].1),
            ),
    decreases s.len(),
{
    if s.len() > 0 {
        lemma_yaml_entries_view(s.drop_last());
    }
}

// ---------------------------------------------------------------------------
// Floats by their bits.

/// The bits of the one NaN that a YAML number holds.
pub open spec fn canonical_nan() -> u64 {
    0x7ff8000000000000u64
}

pub open spec fn is_nan_bits(b: u64) -> bool {
    (b >> 52u64) & 0x7ffu64 == 0x7ffu64 && b & 0xfffffffffffffu64 != 0
}

pub open spec fn is_finite_bits(b: u64) -> bool {
    (b >> 52u64) & 0x7ffu64 != 0x7ffu64
}

// ---------------------------------------------------------------------------
// JSON objects: ordered by key, one entry per key.

/// Where `k` goes in an object: the first entry whose key is `k` or sorts after `k`.
pub open spec fn obj_pos(s: Seq<(Seq<char>, JsonView)>, k: Seq<char>) -> int
    decreases s.len(),
{
    if s.len() == 0 || s[0].0 == k || seq_less(k, s[0].0) {
        0
    } else {
        1 + obj_pos(s.drop_first(), k)
    }
}

/// The object after `k` is set to `v`: the value of an entry with key `k` is replaced,
/// otherwise the entry is placed before the first key that sorts after `k`.
pub open spec fn obj_insert(s: Seq<(Seq<char>, JsonView)>, k: Seq<char>, v: JsonView) -> Seq<(Seq<char>, JsonView)> {
    let p = obj_pos(s, k);
    if p < s.len() && s[p].0 == k {
        s.update(p, (k, v))
    } else {
        s.insert(p, (k, v))
    }
}

pub proof fn lemma_obj_pos(s: Seq<(Seq<char>, JsonView)>, k: Seq<char>)
    ensures
        0 <= obj_pos(s, k) <= s.len(),
        forall|j: int| 0 <= j < obj_pos(s, k) ==> #[trigger] s[j].0 != k && !seq_less(k, s[j].0),
        obj_pos(s, k) < s.len() ==> (s[obj_pos(s, k)].0 == k || seq_less(k, s[obj_pos(s, k)].0)),
    decreases s.len(),
{
    if !(s.len() == 0 || s[0].0 == k || seq_less(k, s[0].0)) {
        lemma_obj_pos(s.drop_first(), k);
        assert forall|j: int| 1 <= j < obj_pos(s, k) implies #[trigger] s[j] == s.drop_first()[j - 1] by {}
    }
}

/// Sets key `k` of a JSON object to `v`.
pub fn obj_set(out: &mut Vec<(String, JsonValue)>, k: String, v: JsonValue)
    ensures
        json_entries_view(final(out)@) == obj_insert(json_entries_view(old(out)@), k@, v@),
{
    let ghost s = json_entries_view(out@);
    proof {
        lemma_json_entries_view(out@);
        lemma_obj_pos(s, k@);
    }
    let mut p: usize = 0;
    while p < out.len() && !str_eq(out[p].0.as_str(), k.as_str()) && !str_less(k.as_str(), out[p].0.as_str())
        invariant
            p <= out@.len(),
            s == json_entries_view(out@),
            s.len() == out@.len(),
            forall|j: int| 0 <= j < s.len() ==> #[trigger] s[j] == (out@[j].0@, json_view(out@[j].1)),
            0 <= obj_pos(s, k@) <= s.len(),
            forall|j: int| 0 <= j < obj_pos(s, k@) ==> #[trigger] s[j].0 != k@ && !seq_less(k@, s[j].0),
            obj_pos(s, k@) < s.len() ==> (s[obj_pos(s, k@)].0 == k@ || seq_less(k@, s[obj_pos(s, k@)].0)),
            forall|j: int| 0 <= j < p ==> #[trigger] s[j].0 != k@ && !seq_less(k@, s[j].0),
        decreases out@.len() - p,
    {
        assert(s[p as int].0 == out@[p as int].0@);
        p = p + 1;
    }
    assert(p as int == obj_pos(s, k@)) by {
        if p < out@.len() {
            assert(s[p as int].0 == out@[p as int].0@);
        }
    }
    let ghost vv = v@;
    let ghost kk = k@;
    if p < out.len() && str_eq(out[p].0.as_str(), k.as_str()) {
        out.set(p, (k, v));
        proof {
            lemma_json_entries_view(out@);
            assert(json_entries_view(out@) =~= s.update(p as int, (kk, vv)));
        }
    } else {
        out.insert(p, (k, v));
        proof {
            lemma_json_entries_view(out@);
            assert(json_entries_view(out@) =~= s.insert(p as int, (kk, vv)));
        }
    }
}

// ---------------------------------------------------------------------------
// YAML mappings: insertion order, one entry per key.

/// The position of the entry whose key is `k`.
pub open spec fn yaml_key_index(s: Seq<(YamlView, YamlView)>, k: YamlView) -> Option<int>
    decreases s.len(),
{
    if s.len() == 0 {
        None
    } else if s[0].0 == k {
        Some(0)
    } else {
        match yaml_key_index(s.drop_first(), k) {
            Some(i) => Some(i + 1),
            None => None,
        }
    }
}

pub proof fn lemma_yaml_key_index(s: Seq<(YamlView, YamlView)>, k: YamlView)
    ensures
        match yaml_key_index(s, k) {
            Some(i) => 0 <= i < s.len() && s[i].0 == k && forall|j: int|
                0 <= j < i ==> #[trigger] s[j].0 != k,
            None => forall|j: int| 0 <= j < s.len() ==> #[trigger] s[j].0 != k,
        },
    decreases s.len(),
{
    if s.len() > 0 {
        lemma_yaml_key_index(s.drop_first(), k);
        assert forall|j: int| 1 <= j < s.len() implies #[trigger] s[j] == s.drop_first()[j - 1] by {}
    }
}

/// The mapping after key `k` is set to `v`: an existing entry keeps its place and gets
/// the new value, a new key goes last.
pub open spec fn yaml_insert(s: Seq<(YamlView, YamlView)>, k: YamlView, v: YamlView) -> Seq<(YamlView, YamlView)> {
    match yaml_key_index(s, k) {
        Some(i) => s.update(i, (s[i].0, v)),
        None => s.push((k, v)),
    }
}

/// Sets the text key `k` of a YAML mapping to `v`.
pub fn yaml_set_str(out: &mut Vec<(YamlValue, YamlValue)>, k: String, v: YamlValue)
    ensures
        yaml_entries_view(final(out)@) == yaml_insert(yaml_entries_view(old(out)@), YamlView::String(k@), v@),
{
    let ghost s = yaml_entries_view(out@);
    let ghost key = YamlView::String(k@);
    proof {
        lemma_yaml_entries_view(out@);
        lemma_yaml_key_index(s, key);
    }
    let mut p: usize = 0;
    while p < out.len()
        invariant
            p <= out@.len(),
            s == yaml_entries_view(out@),
            s == yaml_entries_view(old(out)@),
            s.len() == out@.len(),
            key == YamlView::String(k@),
            forall|j: int| 0 <= j < s.len() ==> #[trigger] s[j] == (yaml_view(out@[j].0), yaml_view(out@[j].1)),
            forall|j: int| 0 <= j < p ==> #[trigger] s[j].0 != key,
        decreases out@.len() - p,
    {
        let hit = match &out[p].0 {
            YamlValue::String(x) => str_eq(x.as_str(), k.as_str()),
            _ => false,
        };
        if hit {
            assert(s[p as int].0 == key);
            assert(yaml_key_index(s, key) == Some(p as int)) by {
                lemma_yaml_key_index(s, key);
            }
            let ghost vv = v@;
            let (old_key, _) = out.remove(p);
            out.insert(p, (old_key, v));
            proof {
                lemma_yaml_entries_view(out@);
                assert(yaml_entries_view(out@) =~= s.update(p as int, (s[p as int].0, vv)));
            }
            return;
        }
        assert(s[p as int].0 != key);
        p = p + 1;
    }
    assert(yaml_key_index(s, key) is None) by {
        lemma_yaml_key_index(s, key);
    }
    let ghost vv = v@;
    out.push((YamlValue::String(k), v));
    proof {
        lemma_yaml_entries_view(out@);
        assert(yaml_entries_view(out@) =~= s.push((key, vv)));
    }
}

// ---------------------------------------------------------------------------
// JSON to YAML (what serializing a JSON value into a YAML value gives).

/// A number as a YAML value holds it: integers by sign, every NaN as the one NaN.
pub open spec fn yaml_number(n: NumberView) -> NumberView {
    match n {
        NumberView::PosInt(u) => NumberView::PosInt(u),
        NumberView::NegInt(i) => if i < 0 {
            NumberView::NegInt(i)
        } else {
            NumberView::PosInt(i as u64)
        },
        NumberView::Float(b, t) => if is_nan_bits(b) {
            NumberView::Float(canonical_nan(), t)
        } else {
            NumberView::Float(b, t)
        },
    }
}

/// A number as a JSON value holds it: integers by sign, a float only when finite
/// (a non-finite float becomes `null`).
pub open spec fn json_number(n: NumberView) -> JsonView {
    match n {
        NumberView::PosInt(u) => JsonView::Number(NumberView::PosInt(u)),
        NumberView::NegInt(i) => if i < 0 {
            JsonView::Number(NumberView::NegInt(i))
        } else {
            JsonView::Number(NumberView::PosInt(i as u64))
        },
        NumberView::Float(b, t) => if is_finite_bits(b) {
            JsonView::Number(NumberView::Float(b, t))
        } else {
            JsonView::Null
        },
    }
}

pub open spec fn spec_json_to_yaml(v: JsonView) -> YamlView
    decreases v,
{
    match v {
        JsonView::Null => YamlView::Null,
        JsonView::Bool(b) => YamlView::Bool(b),
        JsonView::Number(n) => YamlView::Number(yaml_number(n)),
        JsonView::String(s) => YamlView::String(s),
        JsonView::Array(items) => YamlView::Sequence(json_items_to_yaml(items)),
        JsonView::Object(entries) => YamlView::Mapping(json_entries_to_yaml(entries)),
    }
}

pub open spec fn json_items_to_yaml(s: Seq<JsonView>) -> Seq<YamlView>
    decreases s,
{
    if s.len() == 0 {
        Seq::empty()
    } else {
        json_items_to_yaml(s.drop_last()).push(spec_json_to_yaml(s.last()))
    }
}

pub open spec fn json_entries_to_yaml(s: Seq<(Seq<char>, JsonView)>) -> Seq<(YamlView, YamlView)>
    decreases s,
{
    if s.len() == 0 {
        Seq::empty()
    } else {
        yaml_insert(
            json_entries_to_yaml(s.drop_last()),
            YamlView::String(s.last().0),
            spec_json_to_yaml(s.last().1),
        )
    }
}

fn number_for_yaml(n: &Number) -> (r: Number)
    ensures
        r@ == yaml_number(n@),
{
    match n {
        Number::PosInt(u) => Number::PosInt(*u),
        Number::NegInt(i) => if *i < 0 {
            Number::NegInt(*i)
        } else {
            Number::PosInt(*i as u64)
        },
        Number::Float { bits, text } => {
            let b = *bits;
            if (b >> 52u64) & 0x7ffu64 == 0x7ffu64 && b & 0xfffffffffffffu64 != 0 {
                Number::Float { bits: 0x7ff8000000000000u64, text: text.clone() }
            } else {
                Number::Float { bits: b, text: text.clone() }
            }
        },
    }
}

/// The YAML value that a JSON value serializes to.
pub fn json_to_yaml(v: &JsonValue) -> (r: YamlValue)
    ensures
        r@ == spec_json_to_yaml(v@),
    decreases v,
{
    match v {
        JsonValue::Null => YamlValue::Null,
        JsonValue::Bool(b) => YamlValue::Bool(*b),
        JsonValue::Number(n) => YamlValue::Number(number_for_yaml(n)),
        JsonValue::String(s) => YamlValue::String(s.clone()),
        JsonValue::Array(items) => {
            let mut out: Vec<YamlValue> = Vec::new();
            let mut i: usize = 0;
            proof {
                lemma_json_seq_view(items@);
            }
            while i < items.len()
                invariant
                    i <= items@.len(),
                    *v == JsonValue::Array(*items),
                    json_seq_view(items@).len() == items@.len(),
                    forall|j: int| 0 <= j < items@.len() ==> #[trigger] json_seq_view(items@)[j] == json_view(items@[j]),
                    yaml_seq_view(out@) == json_items_to_yaml(json_seq_view(items@).take(i as int)),
                decreases items@.len() - i,
            {
                proof {
                    assert(decreases_to!(*v => (*v)->Array_0));
                    assert(decreases_to!((*v)->Array_0 => (*v)->Array_0@));
                    assert(decreases_to!((*v)->Array_0@ => (*v)->Array_0@[i as int]));
                }
                let c = json_to_yaml(&items[i]);
                proof {
                    assert(out@.push(c).drop_last() == out@);
                    assert(json_seq_view(items@).take(i + 1).drop_last() == json_seq_view(items@).take(i as int));
                }
                out.push(c);
                i = i + 1;
            }
            assert(json_seq_view(items@).take(items@.len() as int) == json_seq_view(items@));
            YamlValue::Sequence(out)
        },
        JsonValue::Object(entries) => {
            let mut out: Vec<(YamlValue, YamlValue)> = Vec::new();
            let mut i: usize = 0;
            proof {
                lemma_json_entries_view(entries@);
            }
            while i < entries.len()
                invariant
                    i <= entries@.len(),
                    *v == JsonValue::Object(*entries),
                    json_entries_view(entries@).len() == entries@.len(),
                    forall|j: int| 0 <= j < entries@.len() ==> #[trigger] json_entries_view(entries@)[j] == (entries@[j].0@, json_view(entries@[j].1)),
                    yaml_entries_view(out@) == json_entries_to_yaml(json_entries_view(entries@).take(i as int)),
                decreases entries@.len() - i,
            {
                proof {
                    assert(decreases_to!(*v => (*v)->Object_0));
                    assert(decreases_to!((*v)->Object_0 => (*v)->Object_0@));
                    assert(decreases_to!((*v)->Object_0@ => (*v)->Object_0@[i as int]));
                    assert(decreases_to!((*v)->Object_0@[i as int] => (*v)->Object_0@[i as int].1));
                }
                let c = json_to_yaml(&entries[i].1);
                let k = entries[i].0.clone();
                proof {
                    assert(json_entries_view(entries@).take(i + 1).drop_last() == json_entries_view(entries@).take(i as int));
                }
                yaml_set_str(&mut out, k, c);
                i = i + 1;
            }
            assert(json_entries_view(entries@).take(entries@.len() as int) == json_entries_view(entries@));
            YamlValue::Mapping(out)
        },
    }
}

// ---------------------------------------------------------------------------
// YAML to JSON (what serializing a YAML value into a JSON value gives).

/// The text a YAML key becomes as the key of a JSON object, when it can be one:
/// text as it is, booleans and integers written out, finite floats by their text.
pub open spec fn key_text(k: YamlView) -> Option<Seq<char>> {
    match k {
        YamlView::String(s) => Some(s),
        YamlView::Bool(b) => Some(if b { "true"@ } else { "false"@ }),
        YamlView::Number(NumberView::PosInt(u)) => Some(decimal(u as nat)),
        YamlView::Number(NumberView::NegInt(i)) => Some(signed_decimal(i as int)),
        YamlView::Number(NumberView::Float(b, t)) => if is_finite_bits(b) {
            Some(t)
        } else {
            None
        },
        _ => None,
    }
}

pub open spec fn spec_yaml_to_json(v: YamlView) -> Option<JsonView>
    decreases v,
{
    match v {
        YamlView::Null => Some(JsonView::Null),
        YamlView::Bool(b) => Some(JsonView::Bool(b)),
        YamlView::Number(n) => Some(json_number(n)),
        YamlView::String(s) => Some(JsonView::String(s)),
        YamlView::Sequence(items) => match yaml_items_to_json(items) {
            Some(a) => Some(JsonView::Array(a)),
            None => None,
        },
        YamlView::Mapping(entries) => match yaml_entries_to_json(entries) {
            Some(o) => Some(JsonView::Object(o)),
            None => None,
        },
        YamlView::Tagged(tag, inner) => match spec_yaml_to_json(*inner) {
            Some(j) => Some(JsonView::Object(seq![(tag, j)])),
            None => None,
        },
    }
}

pub open spec fn yaml_items_to_json(s: Seq<YamlView>) -> Option<Seq<JsonView>>
    decreases s,
{
    if s.len() == 0 {
        Some(Seq::empty())
    } else {
        match (yaml_items_to_json(s.drop_last()), spec_yaml_to_json(s.last())) {
            (Some(a), Some(j)) => Some(a.push(j)),
            _ => None,
        }
    }
}

pub open spec fn yaml_entries_to_json(s: Seq<(YamlView, YamlView)>) -> Option<Seq<(Seq<char>, JsonView)>>
    decreases s,
{
    if s.len() == 0 {
        Some(Seq::empty())
    } else {
        match (yaml_entries_to_json(s.drop_last()), key_text(s.last().0), spec_yaml_to_json(s.last().1)) {
            (Some(o), Some(k), Some(j)) => Some(obj_insert(o, k, j)),
            _ => None,
        }
    }
}

proof fn lemma_items_none_stays(s: Seq<YamlView>, k: int)
    requires
        0 <= k <= s.len(),
        yaml_items_to_json(s.take(k)) is None,
    ensures
        yaml_items_to_json(s) is None,
    decreases s.len() - k,
{
    if k < s.len() {
        assert(s.take(k + 1).drop_last() == s.take(k));
        lemma_items_none_stays(s, k + 1);
    } else {
        assert(s.take(k) == s);
    }
}

proof fn lemma_entries_none_stays(s: Seq<(YamlView, YamlView)>, k: int)
    requires
        0 <= k <= s.len(),
        yaml_entries_to_json(s.take(k)) is None,
    ensures
        yaml_entries_to_json(s) is None,
    decreases s.len() - k,
{
    if k < s.len() {
        assert(s.take(k + 1).drop_last() == s.take(k));
        lemma_entries_none_stays(s, k + 1);
    } else {
        assert(s.take(k) == s);
    }
}

fn number_for_json(n: &Number) -> (r: JsonValue)
    ensures
        r@ == json_number(n@),
{
    match n {
        Number::PosInt(u) => JsonValue::Number(Number::PosInt(*u)),
        Number::NegInt(i) => if *i < 0 {
            JsonValue::Number(Number::NegInt(*i))
        } else {
            JsonValue::Number(Number::PosInt(*i as u64))
        },
        Number::Float { bits, text } => {
            let b = *bits;
            if (b >> 52u64) & 0x7ffu64 != 0x7ffu64 {
                JsonValue::Number(Number::Float { bits: b, text: text.clone() })
            } else {
                JsonValue::Null
            }
        },
    }
}

fn key_for_json(k: &YamlValue) -> (r: Option<String>)
    ensures
        match key_text(k@) {
            Some(t) => r matches Some(s) && s@ == t,
            None => r is None,
        },
{
    match k {
        YamlValue::String(s) => Some(s.clone()),
        YamlValue::Bool(b) => {
            proof {
                reveal_strlit("true");
                reveal_strlit("false");
            }
            if *b {
                Some("true".to_string())
            } else {
                Some("false".to_string())
            }
        },
        YamlValue::Number(Number::PosInt(u)) => Some(u64_to_decimal(*u)),
        YamlValue::Number(Number::NegInt(i)) => Some(i64_to_decimal(*i)),
        YamlValue::Number(Number::Float { bits, text }) => {
            let b = *bits;
            if (b >> 52u64) & 0x7ffu64 != 0x7ffu64 {
                Some(text.clone())
            } else {
                None
            }
        },
        _ => None,
    }
}

/// The JSON value that a YAML value serializes to; `None` when a mapping key cannot be
/// the key of a JSON object.
pub fn yaml_to_json(v: &YamlValue) -> (r: Option<JsonValue>)
    ensures
        match spec_yaml_to_json(v@) {
            Some(j) => r matches Some(x) && x@ == j,
            None => r is None,
        },
        r matches Some(x) ==> json_canonical(x@),
    decreases v,
{
    proof {
        lemma_yaml_to_json_canonical(v@);
    }
    match v {
        YamlValue::Null => Some(JsonValue::Null),
        YamlValue::Bool(b) => Some(JsonValue::Bool(*b)),
        YamlValue::Number(n) => Some(number_for_json(n)),
        YamlValue::String(s) => Some(JsonValue::String(s.clone())),
        YamlValue::Sequence(items) => {
            let mut out: Vec<JsonValue> = Vec::new();
            let mut i: usize = 0;
            proof {
                lemma_yaml_seq_view(items@);
            }
            while i < items.len()
                invariant
                    i <= items@.len(),
                    *v == YamlValue::Sequence(*items),
                    yaml_seq_view(items@).len() == items@.len(),
                    forall|j: int| 0 <= j < items@.len() ==> #[trigger] yaml_seq_view(items@)[j] == yaml_view(items@[j]),
                    yaml_items_to_json(yaml_seq_view(items@).take(i as int)) == Some(json_seq_view(out@)),
                decreases items@.len() - i,
            {
                proof {
                    assert(decreases_to!(*v => (*v)->Sequence_0));
                    assert(decreases_to!((*v)->Sequence_0 => (*v)->Sequence_0@));
                    assert(decreases_to!((*v)->Sequence_0@ => (*v)->Sequence_0@[i as int]));
                    assert(yaml_seq_view(items@).take(i + 1).drop_last() == yaml_seq_view(items@).take(i as int));
                }
                match yaml_to_json(&items[i]) {
                    Some(c) => {
                        proof {
                            assert(out@.push(c).drop_last() == out@);
                        }
                        out.push(c);
                    },
                    None => {
                        proof {
                            lemma_items_none_stays(yaml_seq_view(items@), i + 1);
                        }
                        return None;
                    },
                }
                i = i + 1;
            }
            assert(yaml_seq_view(items@).take(items@.len() as int) == yaml_seq_view(items@));
            Some(JsonValue::Array(out))
        },
        YamlValue::Mapping(entries) => {
            let mut out: Vec<(String, JsonValue)> = Vec::new();
            let mut i: usize = 0;
            proof {
                lemma_yaml_entries_view(entries@);
            }
            while i < entries.len()
                invariant
                    i <= entries@.len(),
                    *v == YamlValue::Mapping(*entries),
                    yaml_entries_view(entries@).len() == entries@.len(),
                    forall|j: int| 0 <= j < entries@.len() ==> #[trigger] yaml_entries_view(entries@)[j] == (yaml_view(entries@[j].0), yaml_view(entries@[j].1)),
                    yaml_entries_to_json(yaml_entries_view(entries@).take(i as int)) == Some(json_entries_view(out@)),
                decreases entries@.len() - i,
            {
                proof {
                    assert(decreases_to!(*v => (*v)->Mapping_0));
                    assert(decreases_to!((*v)->Mapping_0 => (*v)->Mapping_0@));
                    assert(decreases_to!((*v)->Mapping_0@ => (*v)->Mapping_0@[i as int]));
                    assert(decreases_to!((*v)->Mapping_0@[i as int] => (*v)->Mapping_0@[i as int].1));
                    assert(yaml_entries_view(entries@).take(i + 1).drop_last() == yaml_entries_view(entries@).take(i as int));
                }
                let k = key_for_json(&entries[i].0);
                let c = yaml_to_json(&entries[i].1);
                match (k, c) {
                    (Some(k), Some(c)) => {
                        obj_set(&mut out, k, c);
                    },
                    _ => {
                        proof {
                            lemma_entries_none_stays(yaml_entries_view(entries@), i + 1);
                        }
                        return None;
                    },
                }
                i = i + 1;
            }
            assert(yaml_entries_view(entries@).take(entries@.len() as int) == yaml_entries_view(entries@));
            Some(JsonValue::Object(out))
        },
        YamlValue::Tagged(tag, inner) => {
            match yaml_to_json(inner) {
                Some(j) => {
                    let mut out: Vec<(String, JsonValue)> = Vec::new();
                    let ghost jv = j@;
                    out.push((tag.clone(), j));
                    proof {
                        lemma_json_entries_view(out@);
                        assert(json_entries_view(out@) =~= seq![(tag@, jv)]);
                    }
                    Some(JsonValue::Object(out))
                },
                None => None,
            }
        },
    }
}

// ---------------------------------------------------------------------------
// Reading YAML documents.

/// A value with its tags removed.
pub open spec fn untag(v: YamlView) -> YamlView
    decreases v,
{
    match v {
        YamlView::Tagged(_, inner) => untag(*inner),
        _ => v,
    }
}

/// `value.get(key)`: the value stored under the text key `key` of a mapping.
pub open spec fn yaml_get(v: YamlView, key: Seq<char>) -> Option<YamlView> {
    match untag(v) {
        YamlView::Mapping(entries) => match yaml_key_index(entries, YamlView::String(key)) {
            Some(i) => Some(entries[i].1),
            None => None,
        },
        _ => None,
    }
}

/// `value.as_str()`.
pub open spec fn yaml_as_str(v: YamlView) -> Option<Seq<char>> {
    match untag(v) {
        YamlView::String(s) => Some(s),
        _ => None,
    }
}

/// `value.as_mapping()`.
pub open spec fn yaml_as_mapping(v: YamlView) -> Option<Seq<(YamlView, YamlView)>> {
    match untag(v) {
        YamlView::Mapping(entries) => Some(entries),
        _ => None,
    }
}

pub fn untag_ref(v: &YamlValue) -> (r: &YamlValue)
    ensures
        r@ == untag(v@),
        !(r@ is Tagged),
    decreases v,
{
    match v {
        YamlValue::Tagged(_, inner) => untag_ref(inner),
        _ => v,
    }
}

/// The position of the entry with text key `key`.
pub fn find_str_key(entries: &Vec<(YamlValue, YamlValue)>, key: &str) -> (r: Option<usize>)
    ensures
        match yaml_key_index(yaml_entries_view(entries@), YamlView::String(key@)) {
            Some(i) => r matches Some(k) && k == i,
            None => r is None,
        },
        r matches Some(k) ==> k < entries@.len(),
{
    let ghost s = yaml_entries_view(entries@);
    let ghost k = YamlView::String(key@);
    proof {
        lemma_yaml_entries_view(entries@);
        lemma_yaml_key_index(s, k);
    }
    let mut p: usize = 0;
    while p < entries.len()
        invariant
            p <= entries@.len(),
            s == yaml_entries_view(entries@),
            s.len() == entries@.len(),
            k == YamlView::String(key@),
            forall|j: int| 0 <= j < s.len() ==> #[trigger] s[j] == (yaml_view(entries@[j].0), yaml_view(entries@[j].1)),
            forall|j: int| 0 <= j < p ==> #[trigger] s[j].0 != k,
            match yaml_key_index(s, k) {
                Some(i) => 0 <= i < s.len() && s[i].0 == k && forall|j: int| 0 <= j < i ==> #[trigger] s[j].0 != k,
                None => forall|j: int| 0 <= j < s.len() ==> #[trigger] s[j].0 != k,
            },
        decreases entries@.len() - p,
    {
        let hit = match &entries[p].0 {
            YamlValue::String(x) => str_eq(x.as_str(), key),
            _ => false,
        };
        if hit {
            assert(s[p as int].0 == k);
            return Some(p);
        }
        assert(s[p as int].0 != k);
        p = p + 1;
    }
    None
}

pub fn yaml_get_ref<'a>(v: &'a YamlValue, key: &str) -> (r: Option<&'a YamlValue>)
    ensures
        match yaml_get(v@, key@) {
            Some(x) => r matches Some(y) && y@ == x,
            None => r is None,
        },
{
    let u = untag_ref(v);
    match u {
        YamlValue::Mapping(entries) => {
            proof {
                lemma_yaml_entries_view(entries@);
            }
            match find_str_key(entries, key) {
                Some(i) => Some(&entries[i].1),
                None => None,
            }
        },
        _ => None,
    }
}

pub fn yaml_as_str_ref(v: &YamlValue) -> (r: Option<&str>)
    ensures
        match yaml_as_str(v@) {
            Some(s) => r matches Some(x) && x@ == s,
            None => r is None,
        },
{
    match untag_ref(v) {
        YamlValue::String(s) => Some(s.as_str()),
        _ => None,
    }
}

pub fn yaml_as_mapping_ref(v: &YamlValue) -> (r: Option<&Vec<(YamlValue, YamlValue)>>)
    ensures
        match yaml_as_mapping(v@) {
            Some(m) => r matches Some(x) && yaml_entries_view(x@) == m,
            None => r is None,
        },
{
    match untag_ref(v) {
        YamlValue::Mapping(entries) => Some(entries),
        _ => None,
    }
}

/// The empty JSON object.
pub open spec fn empty_object() -> JsonView {
    JsonView::Object(Seq::empty())
}

pub fn new_empty_object() -> (r: JsonValue)
    ensures
        r@ == empty_object(),
        json_canonical(r@),
{
    let out: Vec<(String, JsonValue)> = Vec::new();
    JsonValue::Object(out)
}

/// Whether a JSON value is `null`.
pub fn json_is_null(v: &JsonValue) -> (b: bool)
    ensures
        b == (v@ == JsonView::Null),
{
    match v {
        JsonValue::Null => true,
        _ => false,
    }
}

/// Whether a JSON value is the empty object.
pub fn json_is_empty_object(v: &JsonValue) -> (b: bool)
    ensures
        b == (v@ == empty_object()),
{
    match v {
        JsonValue::Object(entries) => {
            proof {
                lemma_json_entries_view(entries@);
            }
            assert(entries@.len() == 0 ==> json_entries_view(entries@) =~= Seq::<(Seq<char>, JsonView)>::empty());
            entries.len() == 0
        },
        _ => false,
    }
}


// ---------------------------------------------------------------------------
// Canonical JSON: what a JSON value holds in memory (objects ordered by key,
// each key once; numbers as JSON keeps them).

/// The keys of an object come in strictly increasing order, so none repeats.
pub open spec fn keys_sorted(es: Seq<(Seq<char>, JsonView)>) -> bool {
    forall|i: int, j: int| 0 <= i < j < es.len() ==> seq_less(#[trigger] es[i].0, #[trigger] es[j].0)
}

/// A number as a JSON value holds it: integers by sign, floats only when finite.
pub open spec fn number_canonical(n: NumberView) -> bool {
    match n {
        NumberView::PosInt(_) => true,
        NumberView::NegInt(i) => i < 0,
        NumberView::Float(b, _) => is_finite_bits(b),
    }
}

/// Every object of the value, at every depth, has sorted unique keys, and every
/// number is held as JSON holds it.
pub open spec fn json_canonical(v: JsonView) -> bool
    decreases v,
{
    match v {
        JsonView::Number(n) => number_canonical(n),
        JsonView::Array(items) => json_items_canonical(items),
        JsonView::Object(es) => keys_sorted(es) && json_values_canonical(es),
        _ => true,
    }
}

pub open spec fn json_items_canonical(items: Seq<JsonView>) -> bool
    decreases items,
{
    if items.len() == 0 {
        true
    } else {
        json_items_canonical(items.drop_last()) && json_canonical(items.last())
    }
}

pub open spec fn json_values_canonical(es: Seq<(Seq<char>, JsonView)>) -> bool
    decreases es,
{
    if es.len() == 0 {
        true
    } else {
        json_values_canonical(es.drop_last()) && json_canonical(es.last().1)
    }
}

/// An object's entries laid out as a YAML mapping, key by key.
pub open spec fn entries_as_yaml(es: Seq<(Seq<char>, JsonView)>) -> Seq<(YamlView, YamlView)> {
    es.map_values(|e: (Seq<char>, JsonView)| (YamlView::String(e.0), spec_json_to_yaml(e.1)))
}

/// Entries with distinct keys are laid into a YAML mapping in order.
pub proof fn lemma_distinct_entries_to_yaml(s: Seq<(Seq<char>, JsonView)>)
    requires
        forall|i: int, j: int| 0 <= i < j < s.len() ==> #[trigger] s[i].0 != #[trigger] s[j].0,
    ensures
        json_entries_to_yaml(s) == entries_as_yaml(s),
    decreases s.len(),
{
    if s.len() > 0 {
        let t = s.drop_last();
        lemma_distinct_entries_to_yaml(t);
        let m = json_entries_to_yaml(t);
        let k = YamlView::String(s.last().0);
        lemma_yaml_key_index(m, k);
        if yaml_key_index(m, k) is Some {
            let i = yaml_key_index(m, k)->0;
            assert(m[i].0 == YamlView::String(t[i].0));
            assert(s[i].0 != s[s.len() - 1].0);
        }
        assert(json_entries_to_yaml(s) =~= entries_as_yaml(s));
    }
}

proof fn lemma_obj_insert_last(t: Seq<(Seq<char>, JsonView)>, k: Seq<char>, v: JsonView)
    requires
        forall|i: int| 0 <= i < t.len() ==> seq_less(#[trigger] t[i].0, k),
    ensures
        obj_insert(t, k, v) == t.push((k, v)),
{
    lemma_obj_pos(t, k);
    let p = obj_pos(t, k);
    if p < t.len() {
        crate::sorting::lemma_seq_less_irreflexive(k);
        crate::sorting::lemma_seq_less_asymmetric(t[p].0, k);
    }
    assert(obj_insert(t, k, v) =~= t.push((k, v)));
}

proof fn lemma_items_round_trip(items: Seq<JsonView>)
    requires
        json_items_canonical(items),
    ensures
        yaml_items_to_json(json_items_to_yaml(items)) == Some(items),
    decreases items,
{
    if items.len() > 0 {
        let t = items.drop_last();
        lemma_items_round_trip(t);
        lemma_json_round_trip(items.last());
        let y = json_items_to_yaml(items);
        assert(y.drop_last() =~= json_items_to_yaml(t));
        assert(t.push(items.last()) =~= items);
    } else {
        assert(json_items_to_yaml(items) =~= Seq::<YamlView>::empty());
        assert(items =~= Seq::<JsonView>::empty());
    }
}

proof fn lemma_entries_round_trip(es: Seq<(Seq<char>, JsonView)>)
    requires
        keys_sorted(es),
        json_values_canonical(es),
    ensures
        yaml_entries_to_json(entries_as_yaml(es)) == Some(es),
    decreases es,
{
    if es.len() > 0 {
        let t = es.drop_last();
        assert(keys_sorted(t)) by {
            assert forall|i: int, j: int| 0 <= i < j < t.len() implies seq_less(#[trigger] t[i].0, #[trigger] t[j].0) by {
                assert(t[i] == es[i] && t[j] == es[j]);
            }
        }
        lemma_entries_round_trip(t);
        lemma_json_round_trip(es.last().1);
        let y = entries_as_yaml(es);
        assert(y.drop_last() =~= entries_as_yaml(t));
        assert forall|i: int| 0 <= i < t.len() implies seq_less(#[trigger] t[i].0, es.last().0) by {
            assert(t[i] == es[i]);
        }
        lemma_obj_insert_last(t, es.last().0, es.last().1);
        assert(t.push(es.last()) =~= es);
    } else {
        assert(entries_as_yaml(es) =~= Seq::<(YamlView, YamlView)>::empty());
        assert(es =~= Seq::<(Seq<char>, JsonView)>::empty());
    }
}

/// A canonical JSON value laid out as YAML reads back as itself.
pub proof fn lemma_json_round_trip(v: JsonView)
    requires
        json_canonical(v),
    ensures
        spec_yaml_to_json(spec_json_to_yaml(v)) == Some(v),
    decreases v,
{
    match v {
        JsonView::Array(items) => {
            lemma_items_round_trip(items);
        },
        JsonView::Object(es) => {
            assert forall|i: int, j: int| 0 <= i < j < es.len() implies #[trigger] es[i].0 != #[trigger] es[j].0 by {
                crate::sorting::lemma_seq_less_irreflexive(es[i].0);
            }
            lemma_distinct_entries_to_yaml(es);
            lemma_entries_round_trip(es);
        },
        _ => {},
    }
}


/// The values of an object are canonical when each of them is.
pub proof fn lemma_values_canonical(es: Seq<(Seq<char>, JsonView)>)
    ensures
        json_values_canonical(es) <==> forall|i: int| 0 <= i < es.len() ==> json_canonical(#[trigger] es[i].1),
    decreases es.len(),
{
    if es.len() > 0 {
        let t = es.drop_last();
        lemma_values_canonical(t);
        if json_values_canonical(es) {
            assert forall|i: int| 0 <= i < es.len() implies json_canonical(#[trigger] es[i].1) by {
                if i < es.len() - 1 {
                    assert(t[i] == es[i]);
                }
            }
        }
        if forall|i: int| 0 <= i < es.len() ==> json_canonical(#[trigger] es[i].1) {
            assert forall|i: int| 0 <= i < t.len() implies json_canonical(#[trigger] t[i].1) by {
                assert(t[i] == es[i]);
            }
            assert(json_canonical(es[es.len() - 1].1));
        }
    }
}

/// The items of an array are canonical when each of them is.
pub proof fn lemma_items_canonical(items: Seq<JsonView>)
    ensures
        json_items_canonical(items) <==> forall|i: int| 0 <= i < items.len() ==> json_canonical(#[trigger] items[i]),
    decreases items.len(),
{
    if items.len() > 0 {
        let t = items.drop_last();
        lemma_items_canonical(t);
        if json_items_canonical(items) {
            assert forall|i: int| 0 <= i < items.len() implies json_canonical(#[trigger] items[i]) by {
                if i < items.len() - 1 {
                    assert(t[i] == items[i]);
                }
            }
        }
        if forall|i: int| 0 <= i < items.len() ==> json_canonical(#[trigger] items[i]) {
            assert forall|i: int| 0 <= i < t.len() implies json_canonical(#[trigger] t[i]) by {
                assert(t[i] == items[i]);
            }
            assert(json_canonical(items[items.len() - 1]));
        }
    }
}

/// Setting a key of a canonical object keeps it canonical.
proof fn lemma_obj_insert_canonical(t: Seq<(Seq<char>, JsonView)>, k: Seq<char>, v: JsonView)
    requires
        keys_sorted(t),
        json_values_canonical(t),
        json_canonical(v),
    ensures
        keys_sorted(obj_insert(t, k, v)),
        json_values_canonical(obj_insert(t, k, v)),
{
    lemma_obj_pos(t, k);
    lemma_values_canonical(t);
    let r = obj_insert(t, k, v);
    let p = obj_pos(t, k);
    crate::sorting::lemma_seq_order();
    if p < t.len() && t[p].0 == k {
        assert forall|i: int, j: int| 0 <= i < j < r.len() implies seq_less(#[trigger] r[i].0, #[trigger] r[j].0) by {
            assert(r[i].0 == t[i].0 && r[j].0 == t[j].0);
        }
        assert forall|i: int| 0 <= i < r.len() implies json_canonical(#[trigger] r[i].1) by {
            if i != p {
                assert(r[i] == t[i]);
            }
        }
    } else {
        assert forall|i: int| 0 <= i < p implies seq_less(#[trigger] t[i].0, k) by {}
        if p < t.len() {
            assert(seq_less(k, t[p].0));
        }
        assert forall|i: int, j: int| 0 <= i < j < r.len() implies seq_less(#[trigger] r[i].0, #[trigger] r[j].0) by {
            if j < p {
                assert(r[i] == t[i] && r[j] == t[j]);
            } else if j == p {
                assert(r[i] == t[i]);
            } else if i < p {
                assert(r[i] == t[i] && r[j] == t[j - 1]);
                crate::sorting::lemma_seq_less_transitive(t[i].0, k, t[p].0);
                if j - 1 > p {
                    crate::sorting::lemma_seq_less_transitive(t[i].0, t[p].0, t[j - 1].0);
                }
            } else if i == p {
                assert(r[j] == t[j - 1]);
                if j - 1 > p {
                    crate::sorting::lemma_seq_less_transitive(k, t[p].0, t[j - 1].0);
                }
            } else {
                assert(r[i] == t[i - 1] && r[j] == t[j - 1]);
            }
        }
        assert forall|i: int| 0 <= i < r.len() implies json_canonical(#[trigger] r[i].1) by {
            if i < p {
                assert(r[i] == t[i]);
            } else if i > p {
                assert(r[i] == t[i - 1]);
            }
        }
    }
    lemma_values_canonical(r);
}

/// What a YAML value reads as JSON is canonical.
pub proof fn lemma_yaml_to_json_canonical(y: YamlView)
    ensures
        spec_yaml_to_json(y) matches Some(j) ==> json_canonical(j),
    decreases y,
{
    match y {
        YamlView::Sequence(items) => {
            lemma_yaml_items_canonical(items);
        },
        YamlView::Mapping(entries) => {
            lemma_yaml_entries_canonical(entries);
        },
        YamlView::Tagged(tag, inner) => {
            lemma_yaml_to_json_canonical(*inner);
            if spec_yaml_to_json(*inner) is Some {
                let j = spec_yaml_to_json(*inner)->0;
                let es = seq![(tag, j)];
                assert(es.drop_last() =~= Seq::<(Seq<char>, JsonView)>::empty());
                assert(es.last().1 == j);
                assert(json_values_canonical(es.drop_last()));
                assert(json_values_canonical(es));
                assert(keys_sorted(es));
            }
        },
        _ => {},
    }
}

proof fn lemma_yaml_items_canonical(s: Seq<YamlView>)
    ensures
        yaml_items_to_json(s) matches Some(a) ==> json_items_canonical(a),
    decreases s,
{
    if s.len() > 0 {
        lemma_yaml_items_canonical(s.drop_last());
        lemma_yaml_to_json_canonical(s.last());
        if yaml_items_to_json(s) is Some {
            let a = yaml_items_to_json(s.drop_last())->0;
            let j = spec_yaml_to_json(s.last())->0;
            assert(a.push(j).drop_last() =~= a);
        }
    }
}

proof fn lemma_yaml_entries_canonical(s: Seq<(YamlView, YamlView)>)
    ensures
        yaml_entries_to_json(s) matches Some(o) ==> keys_sorted(o) && json_values_canonical(o),
    decreases s,
{
    if s.len() > 0 {
        lemma_yaml_entries_canonical(s.drop_last());
        lemma_yaml_to_json_canonical(s.last().1);
        if yaml_entries_to_json(s) is Some {
            let o = yaml_entries_to_json(s.drop_last())->0;
            let k = key_text(s.last().0)->0;
            let j = spec_yaml_to_json(s.last().1)->0;
            lemma_obj_insert_canonical(o, k, j);
        }
    }
}


/// The entry found under a key is the first whose key it is.
pub proof fn lemma_yaml_key_index_first(s: Seq<(YamlView, YamlView)>, k: YamlView, p: int)
    requires
        0 <= p < s.len(),
        s[p].0 == k,
        forall|j: int| 0 <= j < p ==> #[trigger] s[j].0 != k,
    ensures
        yaml_key_index(s, k) == Some(p),
    decreases p,
{
    if p > 0 {
        let t = s.drop_first();
        assert forall|j: int| 0 <= j < p - 1 implies #[trigger] t[j].0 != k by {
            assert(t[j] == s[j + 1]);
        }
        lemma_yaml_key_index_first(t, k, p - 1);
    }
}

/// Setting a key of a mapping: the key then holds the new value, and every
/// other key holds what it held.
pub proof fn lemma_yaml_insert(s: Seq<(YamlView, YamlView)>, k: YamlView, v: YamlView, other: YamlView)
    ensures
        yaml_key_index(yaml_insert(s, k, v), k) matches Some(p) && yaml_insert(s, k, v)[p].1 == v,
        other != k ==> match yaml_key_index(s, other) {
            Some(q) => yaml_key_index(yaml_insert(s, k, v), other) == Some(q) && yaml_insert(s, k, v)[q] == s[q],
            None => yaml_key_index(yaml_insert(s, k, v), other) is None,
        },
{
    let r = yaml_insert(s, k, v);
    lemma_yaml_key_index(s, k);
    lemma_yaml_key_index(s, other);
    match yaml_key_index(s, k) {
        Some(i) => {
            assert forall|j: int| 0 <= j < i implies #[trigger] r[j].0 != k by {
                assert(r[j] == s[j]);
            }
            lemma_yaml_key_index_first(r, k, i);
            if other != k {
                match yaml_key_index(s, other) {
                    Some(q) => {
                        assert(q != i);
                        assert forall|j: int| 0 <= j < q implies #[trigger] r[j].0 != other by {
                            if j != i {
                                assert(r[j] == s[j]);
                            }
                        }
                        lemma_yaml_key_index_first(r, other, q);
                    },
                    None => {
                        lemma_yaml_key_index(r, other);
                        if yaml_key_index(r, other) is Some {
                            let q = yaml_key_index(r, other)->0;
                            if q != i {
                                assert(r[q] == s[q]);
                            }
                        }
                    },
                }
            }
        },
        None => {
            let n = s.len() as int;
            assert forall|j: int| 0 <= j < n implies #[trigger] r[j].0 != k by {
                assert(r[j] == s[j]);
            }
            lemma_yaml_key_index_first(r, k, n);
            if other != k {
                match yaml_key_index(s, other) {
                    Some(q) => {
                        assert forall|j: int| 0 <= j < q implies #[trigger] r[j].0 != other by {
                            assert(r[j] == s[j]);
                        }
                        lemma_yaml_key_index_first(r, other, q);
                    },
                    None => {
                        lemma_yaml_key_index(r, other);
                        if yaml_key_index(r, other) is Some {
                            let q = yaml_key_index(r, other)->0;
                            if q < n {
                                assert(r[q] == s[q]);
                            }
                        }
                    },
                }
            }
        },
    }
}

} // verus!
