//! Conversions between the studio's drafts and the files the runtime loads:
//! a flow as a YAML document, knowledge as a YAML document and back, prompt
//! files into a draft, a runtime flow export into a draft, and the verdict
//! on a draft flow from the flow engine's validation.

use vstd::prelude::*;

use crate::companies::strings_view;
use crate::dto::studio::ValidationIssueDto;
use crate::float_bits::{f64_bits, f64_bits_of};
use crate::sorting::{insert_sorted_unique, texts_strictly_sorted};
use crate::studio::types::{
    CategoryView, DocumentView, DraftFlow, DraftFlowNode, DraftFlowTransition, DraftKnowledge,
    DraftPromptSet, DraftPromptTemplate, FlowView, KnowledgeCategory, KnowledgeDocument,
    KnowledgeView, NodePosition, NodeView, PromptSetView, TemplateView, TransitionView, clone_opt_str,
    opt_str_view,
};
use crate::values::{
    empty_object, json_canonical, json_is_empty_object, json_is_null, json_to_yaml, lemma_json_entries_view,
    lemma_yaml_entries_view, new_empty_object, spec_json_to_yaml, spec_yaml_to_json, yaml_as_mapping,
    yaml_as_mapping_ref, yaml_as_str, yaml_as_str_ref, yaml_entries_view, yaml_get, yaml_get_ref,
    yaml_insert, yaml_set_str, yaml_to_json, JsonValue, JsonView, Number, NumberView, YamlValue,
    YamlView,
};

verus! {

pub open spec fn ystr(s: Seq<char>) -> YamlView {
    YamlView::String(s)
}

/// The payload of a node laid into its mapping: every key but `type`, in order.
pub open spec fn fold_payload(acc: Seq<(YamlView, YamlView)>, es: Seq<(Seq<char>, JsonView)>) -> Seq<(YamlView, YamlView)>
    decreases es.len(),
{
    if es.len() == 0 {
        acc
    } else {
        let a = fold_payload(acc, es.drop_last());
        let (k, v) = es.last();
        if k == "type"@ {
            a
        } else {
            yaml_insert(a, ystr(k), spec_json_to_yaml(v))
        }
    }
}

/// A node's transitions as a mapping from action to target.
pub open spec fn fold_transitions(acc: Seq<(YamlView, YamlView)>, ts: Seq<TransitionView>) -> Seq<(YamlView, YamlView)>
    decreases ts.len(),
{
    if ts.len() == 0 {
        acc
    } else {
        yaml_insert(fold_transitions(acc, ts.drop_last()), ystr(ts.last().action), ystr(ts.last().target))
    }
}

/// The mapping of one node: its type, its payload, and its transitions when it has any.
pub open spec fn node_entries(n: NodeView) -> Seq<(YamlView, YamlView)> {
    let base = seq![(ystr("type"@), ystr(n.node_type))];
    let with_payload = match n.payload {
        JsonView::Object(es) => fold_payload(base, es),
        _ => base,
    };
    if n.transitions.len() > 0 {
        yaml_insert(with_payload, ystr("transitions"@), YamlView::Mapping(fold_transitions(Seq::empty(), n.transitions)))
    } else {
        with_payload
    }
}

/// The nodes of a flow as a mapping from node id to node.
pub open spec fn fold_nodes(acc: Seq<(YamlView, YamlView)>, ns: Seq<NodeView>) -> Seq<(YamlView, YamlView)>
    decreases ns.len(),
{
    if ns.len() == 0 {
        acc
    } else {
        yaml_insert(fold_nodes(acc, ns.drop_last()), ystr(ns.last().id), YamlView::Mapping(node_entries(ns.last())))
    }
}

/// The YAML document of a draft flow, as the flow engine reads it.
pub open spec fn flow_document(f: FlowView) -> YamlView {
    let head = seq![(ystr("id"@), ystr(f.id))];
    let named = match f.name {
        Some(n) => head.push((ystr("name"@), ystr(n))),
        None => head,
    };
    YamlView::Mapping(named + seq![
        (ystr("version"@), YamlView::Number(NumberView::PosInt(f.version as u64))),
        (ystr("initial"@), ystr(f.initial)),
        (ystr("nodes"@), YamlView::Mapping(fold_nodes(Seq::empty(), f.nodes))),
    ])
}

/// The value a mapping holds under a text key.
pub open spec fn value_under(m: Seq<(YamlView, YamlView)>, k: Seq<char>) -> Option<YamlView> {
    match crate::values::yaml_key_index(m, ystr(k)) {
        Some(i) => Some(m[i].1),
        None => None,
    }
}

proof fn lemma_fold_payload(acc: Seq<(YamlView, YamlView)>, es: Seq<(Seq<char>, JsonView)>)
    requires
        forall|i: int, j: int| 0 <= i < j < es.len() ==> #[trigger] es[i].0 != #[trigger] es[j].0,
    ensures
        forall|i: int| 0 <= i < es.len() && es[i].0 != "type"@ ==>
            value_under(fold_payload(acc, es), #[trigger] es[i].0) == Some(spec_json_to_yaml(es[i].1)),
        value_under(fold_payload(acc, es), "type"@) == value_under(acc, "type"@),
    decreases es.len(),
{
    if es.len() > 0 {
        let t = es.drop_last();
        let last = es.len() - 1;
        let (kl, vl) = es.last();
        assert forall|i: int, j: int| 0 <= i < j < t.len() implies #[trigger] t[i].0 != #[trigger] t[j].0 by {
            assert(t[i] == es[i] && t[j] == es[j]);
        }
        lemma_fold_payload(acc, t);
        let f = fold_payload(acc, t);
        if kl != "type"@ {
            crate::values::lemma_yaml_insert(f, ystr(kl), spec_json_to_yaml(vl), ystr("type"@));
        }
        assert forall|i: int| 0 <= i < es.len() && es[i].0 != "type"@ implies
            value_under(fold_payload(acc, es), #[trigger] es[i].0) == Some(spec_json_to_yaml(es[i].1)) by {
            if i < last {
                assert(es[i] == t[i]);
                assert(es[i].0 != es[last].0);
                if kl != "type"@ {
                    crate::values::lemma_yaml_insert(f, ystr(kl), spec_json_to_yaml(vl), ystr(es[i].0));
                }
            } else {
                crate::values::lemma_yaml_insert(f, ystr(kl), spec_json_to_yaml(vl), ystr(kl));
            }
        }
    }
}

proof fn lemma_fold_nodes(acc: Seq<(YamlView, YamlView)>, ns: Seq<NodeView>)
    requires
        forall|i: int, j: int| 0 <= i < j < ns.len() ==> #[trigger] ns[i].id != #[trigger] ns[j].id,
    ensures
        forall|i: int| 0 <= i < ns.len() ==>
            value_under(fold_nodes(acc, ns), (#[trigger] ns[i]).id) == Some(YamlView::Mapping(node_entries(ns[i]))),
    decreases ns.len(),
{
    if ns.len() > 0 {
        let t = ns.drop_last();
        let last = ns.len() - 1;
        assert forall|i: int, j: int| 0 <= i < j < t.len() implies #[trigger] t[i].id != #[trigger] t[j].id by {
            assert(t[i] == ns[i] && t[j] == ns[j]);
        }
        lemma_fold_nodes(acc, t);
        let f = fold_nodes(acc, t);
        let v = YamlView::Mapping(node_entries(ns.last()));
        assert forall|i: int| 0 <= i < ns.len() implies
            value_under(fold_nodes(acc, ns), (#[trigger] ns[i]).id) == Some(YamlView::Mapping(node_entries(ns[i]))) by {
            if i < last {
                assert(ns[i] == t[i]);
                assert(ns[i].id != ns[last].id);
                crate::values::lemma_yaml_insert(f, ystr(ns.last().id), v, ystr(ns[i].id));
            } else {
                crate::values::lemma_yaml_insert(f, ystr(ns.last().id), v, ystr(ns.last().id));
            }
        }
    }
}

/// The mapping a flow file gives a node keeps what the draft node holds: its
/// type under `type`, and every payload entry (but `type`, and `transitions`
/// when the node has transitions) under its key, as YAML.
pub proof fn law_node_keeps_payload(n: NodeView)
    requires
        n.payload matches JsonView::Object(es)
            && forall|i: int, j: int| 0 <= i < j < es.len() ==> #[trigger] es[i].0 != #[trigger] es[j].0,
    ensures
        value_under(node_entries(n), "type"@) == Some(ystr(n.node_type)),
        forall|i: int| 0 <= i < n.payload->Object_0.len() && n.payload->Object_0[i].0 != "type"@
            && (n.payload->Object_0[i].0 != "transitions"@ || n.transitions.len() == 0) ==>
            value_under(node_entries(n), #[trigger] n.payload->Object_0[i].0) == Some(spec_json_to_yaml(n.payload->Object_0[i].1)),
{
    reveal_strlit("type");
    reveal_strlit("transitions");
    let es = n.payload->Object_0;
    let base = seq![(ystr("type"@), ystr(n.node_type))];
    crate::values::lemma_yaml_key_index_first(base, ystr("type"@), 0);
    lemma_fold_payload(base, es);
    let wp = fold_payload(base, es);
    assert("type"@.len() == 4 && "transitions"@.len() == 11);
    assert("type"@ != "transitions"@);
    if n.transitions.len() > 0 {
        let tv = YamlView::Mapping(fold_transitions(Seq::empty(), n.transitions));
        crate::values::lemma_yaml_insert(wp, ystr("transitions"@), tv, ystr("type"@));
        assert forall|i: int| 0 <= i < es.len() && es[i].0 != "type"@ && es[i].0 != "transitions"@ implies
            value_under(node_entries(n), #[trigger] es[i].0) == Some(spec_json_to_yaml(es[i].1)) by {
            crate::values::lemma_yaml_insert(wp, ystr("transitions"@), tv, ystr(es[i].0));
        }
    }
}

/// A flow file holds each node of the draft under the node's id, when no two
/// nodes share an id.
pub proof fn law_flow_document_nodes(f: FlowView)
    requires
        forall|i: int, j: int| 0 <= i < j < f.nodes.len() ==> #[trigger] f.nodes[i].id != #[trigger] f.nodes[j].id,
    ensures
        forall|i: int| 0 <= i < f.nodes.len() ==>
            value_under(fold_nodes(Seq::empty(), f.nodes), (#[trigger] f.nodes[i]).id) == Some(YamlView::Mapping(node_entries(f.nodes[i]))),
{
    lemma_fold_nodes(Seq::empty(), f.nodes);
}

fn payload_into(out: &mut Vec<(YamlValue, YamlValue)>, payload: &JsonValue)
    ensures
        match payload@ {
            JsonView::Object(es) => yaml_entries_view(final(out)@) == fold_payload(yaml_entries_view(old(out)@), es),
            _ => final(out)@ == old(out)@,
        },
{
    match payload {
        JsonValue::Object(entries) => {
            let ghost es = payload@->Object_0;
            let ghost base = yaml_entries_view(out@);
            proof { lemma_json_entries_view(entries@); }
            let mut i: usize = 0;
            while i < entries.len()
                invariant
                    i <= entries@.len(),
                    es.len() == entries@.len(),
                    forall|j: int| 0 <= j < entries@.len() ==> #[trigger] es[j] == (entries@[j].0@, entries@[j].1@),
                    yaml_entries_view(out@) == fold_payload(base, es.subrange(0, i as int)),
                decreases entries@.len() - i,
            {
                assert(es.subrange(0, i + 1).drop_last() =~= es.subrange(0, i as int));
                assert(es.subrange(0, i + 1).last() == es[i as int]);
                let (k, v) = (&entries[i].0, &entries[i].1);
                if !crate::text::str_eq(k.as_str(), "type") {
                    let y = json_to_yaml(v);
                    yaml_set_str(out, k.clone(), y);
                }
                i = i + 1;
            }
            assert(es.subrange(0, es.len() as int) =~= es);
        },
        _ => {},
    }
}

fn transitions_map(ts: &Vec<DraftFlowTransition>) -> (r: Vec<(YamlValue, YamlValue)>)
    ensures
        yaml_entries_view(r@) == fold_transitions(Seq::empty(), crate::studio::types::transitions_view(ts@)),
{
    let ghost tv = crate::studio::types::transitions_view(ts@);
    let mut out: Vec<(YamlValue, YamlValue)> = Vec::new();
    let mut i: usize = 0;
    while i < ts.len()
        invariant
            i <= ts@.len(),
            tv == crate::studio::types::transitions_view(ts@),
            yaml_entries_view(out@) == fold_transitions(Seq::empty(), tv.subrange(0, i as int)),
        decreases ts@.len() - i,
    {
        assert(tv.subrange(0, i + 1).drop_last() =~= tv.subrange(0, i as int));
        assert(tv.subrange(0, i + 1).last() == ts@[i as int]@);
        yaml_set_str(&mut out, ts[i].action.clone(), YamlValue::String(ts[i].target.clone()));
        i = i + 1;
    }
    assert(tv.subrange(0, tv.len() as int) =~= tv);
    out
}

fn node_mapping(n: &DraftFlowNode) -> (r: Vec<(YamlValue, YamlValue)>)
    ensures
        yaml_entries_view(r@) == node_entries(n@),
{
    let mut out: Vec<(YamlValue, YamlValue)> = Vec::new();
    out.push((YamlValue::String("type".to_string()), YamlValue::String(n.node_type.clone())));
    proof {
        lemma_yaml_entries_view(out@);
        assert(yaml_entries_view(out@) =~= seq![(ystr("type"@), ystr(n@.node_type))]);
    }
    payload_into(&mut out, &n.payload);
    if n.transitions.len() > 0 {
        let trans = transitions_map(&n.transitions);
        yaml_set_str(&mut out, "transitions".to_string(), YamlValue::Mapping(trans));
    }
    out
}

/// The YAML document of a draft flow: id, name when it has one, version,
/// initial node, and the nodes by id. Serialising it is left to the caller.
pub fn draft_flow_document(flow: &DraftFlow) -> (doc: YamlValue)
    ensures
        doc@ == flow_document(flow@),
{
    let ghost nv = flow@.nodes;
    let mut nodes: Vec<(YamlValue, YamlValue)> = Vec::new();
    let mut i: usize = 0;
    while i < flow.nodes.len()
        invariant
            i <= flow.nodes@.len(),
            nv == flow@.nodes,
            nv.len() == flow.nodes@.len(),
            yaml_entries_view(nodes@) == fold_nodes(Seq::empty(), nv.subrange(0, i as int)),
        decreases flow.nodes@.len() - i,
    {
        assert(nv.subrange(0, i + 1).drop_last() =~= nv.subrange(0, i as int));
        assert(nv.subrange(0, i + 1).last() == flow.nodes@[i as int]@);
        let m = node_mapping(&flow.nodes[i]);
        yaml_set_str(&mut nodes, flow.nodes[i].id.clone(), YamlValue::Mapping(m));
        i = i + 1;
    }
    assert(nv.subrange(0, nv.len() as int) =~= nv);
    let ghost nodes_view = yaml_entries_view(nodes@);
    let mut root: Vec<(YamlValue, YamlValue)> = Vec::new();
    root.push((YamlValue::String("id".to_string()), YamlValue::String(flow.id.clone())));
    match &flow.name {
        Some(name) => root.push((YamlValue::String("name".to_string()), YamlValue::String(name.clone()))),
        None => {},
    }
    root.push((YamlValue::String("version".to_string()), YamlValue::Number(Number::PosInt(flow.version as u64))));
    root.push((YamlValue::String("initial".to_string()), YamlValue::String(flow.initial.clone())));
    root.push((YamlValue::String("nodes".to_string()), YamlValue::Mapping(nodes)));
    proof {
        lemma_yaml_entries_view(root@);
        let expect = flow_document(flow@)->Mapping_0;
        assert(yaml_entries_view(root@).len() == expect.len());
        assert(yaml_entries_view(root@) =~= expect);
    }
    YamlValue::Mapping(root)
}

// ---------------------------------------------------------------------------
// Knowledge.

/// The mapping of one knowledge section: its title as `description`, its
/// content, and its metadata unless that is null or the empty object.
pub open spec fn section_entries(d: DocumentView) -> Seq<(YamlView, YamlView)> {
    let base = seq![(ystr("description"@), ystr(d.title)), (ystr("content"@), ystr(d.content))];
    if d.metadata != JsonView::Null && d.metadata != empty_object() {
        base.push((ystr("metadata"@), spec_json_to_yaml(d.metadata)))
    } else {
        base
    }
}

/// The documents as a mapping from section name to section.
pub open spec fn fold_sections(acc: Seq<(YamlView, YamlView)>, ds: Seq<DocumentView>) -> Seq<(YamlView, YamlView)>
    decreases ds.len(),
{
    if ds.len() == 0 {
        acc
    } else {
        yaml_insert(fold_sections(acc, ds.drop_last()), ystr(ds.last().section), YamlView::Mapping(section_entries(ds.last())))
    }
}

/// The YAML document of a draft's knowledge: its sections.
pub open spec fn knowledge_document(k: KnowledgeView) -> YamlView {
    YamlView::Mapping(seq![(ystr("sections"@), YamlView::Mapping(fold_sections(Seq::empty(), k.documents)))])
}

fn section_mapping(d: &KnowledgeDocument) -> (r: Vec<(YamlValue, YamlValue)>)
    ensures
        yaml_entries_view(r@) == section_entries(d@),
{
    let mut out: Vec<(YamlValue, YamlValue)> = Vec::new();
    out.push((YamlValue::String("description".to_string()), YamlValue::String(d.title.clone())));
    out.push((YamlValue::String("content".to_string()), YamlValue::String(d.content.clone())));
    if !json_is_null(&d.metadata) && !json_is_empty_object(&d.metadata) {
        out.push((YamlValue::String("metadata".to_string()), json_to_yaml(&d.metadata)));
    }
    proof {
        lemma_yaml_entries_view(out@);
        assert(yaml_entries_view(out@) =~= section_entries(d@));
    }
    out
}

/// The YAML document of a draft's knowledge. Serialising it is left to the caller.
pub fn knowledge_yaml_document(knowledge: &DraftKnowledge) -> (doc: YamlValue)
    ensures
        doc@ == knowledge_document(knowledge@),
{
    let ghost dv = knowledge@.documents;
    let mut sections: Vec<(YamlValue, YamlValue)> = Vec::new();
    let mut i: usize = 0;
    while i < knowledge.documents.len()
        invariant
            i <= knowledge.documents@.len(),
            dv == knowledge@.documents,
            dv.len() == knowledge.documents@.len(),
            yaml_entries_view(sections@) == fold_sections(Seq::empty(), dv.subrange(0, i as int)),
        decreases knowledge.documents@.len() - i,
    {
        assert(dv.subrange(0, i + 1).drop_last() =~= dv.subrange(0, i as int));
        assert(dv.subrange(0, i + 1).last() == knowledge.documents@[i as int]@);
        let m = section_mapping(&knowledge.documents[i]);
        yaml_set_str(&mut sections, knowledge.documents[i].section.clone(), YamlValue::Mapping(m));
        i = i + 1;
    }
    assert(dv.subrange(0, dv.len() as int) =~= dv);
    let mut root: Vec<(YamlValue, YamlValue)> = Vec::new();
    root.push((YamlValue::String("sections".to_string()), YamlValue::Mapping(sections)));
    proof {
        lemma_yaml_entries_view(root@);
        assert(yaml_entries_view(root@) =~= knowledge_document(knowledge@)->Mapping_0);
    }
    YamlValue::Mapping(root)
}

/// The category of a section: its name up to the first underscore.
pub open spec fn category_of(id: Seq<char>) -> Seq<char>
    decreases id.len(),
{
    if id.len() == 0 || id[0] == '_' {
        Seq::empty()
    } else {
        seq![id[0]] + category_of(id.drop_first())
    }
}

fn category_of_exec(id: &str) -> (r: String)
    ensures
        r@ == category_of(id@),
{
    let chars = crate::text::chars_of(id);
    let mut i: usize = 0;
    while i < chars.len() && chars[i] != '_'
        invariant
            i <= chars@.len(),
            chars@ == id@,
            forall|j: int| 0 <= j < i ==> chars@[j] != '_',
        decreases chars@.len() - i,
    {
        i = i + 1;
    }
    proof { lemma_category_of(id@, i as int); }
    crate::text::string_from_chars(&chars, 0, i)
}

proof fn lemma_category_of(s: Seq<char>, i: int)
    requires
        0 <= i <= s.len(),
        forall|j: int| 0 <= j < i ==> s[j] != '_',
        i == s.len() || s[i] == '_',
    ensures
        category_of(s) == s.subrange(0, i),
    decreases s.len(),
{
    if i > 0 {
        lemma_category_of(s.drop_first(), i - 1);
        assert(s.subrange(0, i) =~= seq![s[0]] + s.drop_first().subrange(0, i - 1));
    } else {
        assert(s.subrange(0, 0) =~= Seq::<char>::empty());
    }
}

/// A text field of a YAML mapping, or `fallback` when it is missing or not text.
pub open spec fn field_or(v: YamlView, key: Seq<char>, fallback: Seq<char>) -> Seq<char> {
    match yaml_get(v, key) {
        Some(x) => match yaml_as_str(x) {
            Some(s) => s,
            None => fallback,
        },
        None => fallback,
    }
}

/// A YAML value as JSON, or the empty object when it has no JSON form.
pub open spec fn json_or_empty(v: Option<YamlView>) -> JsonView {
    match v {
        Some(y) => match spec_yaml_to_json(y) {
            Some(j) => j,
            None => empty_object(),
        },
        None => empty_object(),
    }
}

/// What a YAML value reads as, or the empty object, is canonical JSON.
pub proof fn lemma_json_or_empty_canonical(v: Option<YamlView>)
    ensures
        json_canonical(json_or_empty(v)),
{
    if let Some(y) = v {
        crate::values::lemma_yaml_to_json_canonical(y);
    }
}

/// The document that one entry of a knowledge file's `sections` becomes.
pub open spec fn section_document(key: YamlView, section: YamlView) -> DocumentView {
    let sid = match yaml_as_str(key) {
        Some(s) => s,
        None => Seq::empty(),
    };
    DocumentView {
        id: sid,
        category_id: category_of(sid),
        title: field_or(section, "description"@, sid),
        section: sid,
        content: field_or(section, "content"@, Seq::empty()),
        metadata: json_or_empty(yaml_get(section, "metadata"@)),
    }
}

/// The sections of a parsed knowledge file, when it has a `sections` mapping.
pub open spec fn knowledge_sections(parsed: Option<YamlView>) -> Option<Seq<(YamlView, YamlView)>> {
    match parsed {
        Some(v) => match yaml_get(v, "sections"@) {
            Some(s) => yaml_as_mapping(s),
            None => None,
        },
        None => None,
    }
}

fn field_or_exec(v: &YamlValue, key: &str, fallback: &str) -> (r: String)
    ensures
        r@ == field_or(v@, key@, fallback@),
{
    match yaml_get_ref(v, key) {
        Some(x) => match yaml_as_str_ref(x) {
            Some(s) => s.to_string(),
            None => fallback.to_string(),
        },
        None => fallback.to_string(),
    }
}

fn json_or_empty_exec(v: Option<&YamlValue>) -> (r: JsonValue)
    ensures
        r@ == json_or_empty(match v {
            Some(y) => Some(y@),
            None => None,
        }),
        json_canonical(r@),
{
    match v {
        Some(y) => match yaml_to_json(y) {
            Some(j) => j,
            None => new_empty_object(),
        },
        None => new_empty_object(),
    }
}

fn section_document_exec(key: &YamlValue, section: &YamlValue) -> (d: KnowledgeDocument)
    ensures
        d@ == section_document(key@, section@),
{
    let sid = match yaml_as_str_ref(key) {
        Some(s) => s.to_string(),
        None => String::new(),
    };
    let title = field_or_exec(section, "description", sid.as_str());
    let content = field_or_exec(section, "content", "");
    proof {
        reveal_strlit("");
        assert(""@ =~= Seq::<char>::empty());
    }
    let metadata = json_or_empty_exec(yaml_get_ref(section, "metadata"));
    let category_id = category_of_exec(sid.as_str());
    KnowledgeDocument { id: sid.clone(), category_id, title, section: sid, content, metadata }
}

/// The categories of a knowledge draft made from a file: one per distinct
/// category of its documents, ordered by id, each named by its id.
pub open spec fn categories_from(documents: Seq<DocumentView>, categories: Seq<CategoryView>) -> bool {
    let ids = categories.map_values(|c: CategoryView| c.id);
    &&& texts_strictly_sorted(ids)
    &&& ids.to_set() == documents.map_values(|d: DocumentView| d.category_id).to_set()
    &&& forall|i: int| 0 <= i < categories.len() ==> #[trigger] categories[i].name == categories[i].id
}

/// The draft knowledge that a knowledge file holds. `parsed` is the file
/// parsed as YAML (`None` when it did not parse). Without a `sections`
/// mapping the draft is the default one; otherwise each section becomes a
/// document, in the file's order, and the categories are those of the documents.
pub fn yaml_to_knowledge(parsed: Option<&YamlValue>) -> (k: DraftKnowledge)
    ensures
        match knowledge_sections(match parsed {
            Some(v) => Some(v@),
            None => None,
        }) {
            None => k@.categories == seq![CategoryView { id: "general"@, name: "General"@ }]
                && k@.documents.len() == 0,
            Some(entries) => k@.documents == entries.map_values(|e: (YamlView, YamlView)| section_document(e.0, e.1))
                && categories_from(k@.documents, k@.categories),
        },
        forall|i: int| 0 <= i < k@.documents.len() ==> json_canonical(#[trigger] k@.documents[i].metadata),
{
    let sections = match parsed {
        Some(v) => match yaml_get_ref(v, "sections") {
            Some(s) => yaml_as_mapping_ref(s),
            None => None,
        },
        None => None,
    };
    let entries = match sections {
        Some(e) => e,
        None => {
            return DraftKnowledge::default();
        },
    };
    let ghost ev = yaml_entries_view(entries@);
    proof { lemma_yaml_entries_view(entries@); }
    let mut documents: Vec<KnowledgeDocument> = Vec::new();
    let mut cats: Vec<String> = Vec::new();
    let mut i: usize = 0;
    while i < entries.len()
        invariant
            i <= entries@.len(),
            ev == yaml_entries_view(entries@),
            ev.len() == entries@.len(),
            forall|j: int| 0 <= j < entries@.len() ==> #[trigger] ev[j] == (entries@[j].0@, entries@[j].1@),
            documents@.len() == i,
            forall|j: int| 0 <= j < i ==> #[trigger] documents@[j]@ == section_document(ev[j].0, ev[j].1),
            texts_strictly_sorted(strings_view(cats@)),
            strings_view(cats@).to_set() == documents@.map_values(|d: KnowledgeDocument| d@.category_id).to_set(),
        decreases entries@.len() - i,
    {
        let d = section_document_exec(&entries[i].0, &entries[i].1);
        let c = d.category_id.clone();
        let ghost before = documents@;
        documents.push(d);
        insert_sorted_unique(&mut cats, c);
        proof {
            assert(documents@.map_values(|d: KnowledgeDocument| d@.category_id)
                =~= before.map_values(|d: KnowledgeDocument| d@.category_id).push(c@));
            let bm = before.map_values(|d: KnowledgeDocument| d@.category_id);
            assert forall|a: Seq<char>| bm.push(c@).to_set().contains(a) <==> bm.to_set().insert(c@).contains(a) by {
                if bm.push(c@).contains(a) {
                    let k = bm.push(c@).index_of(a);
                    if k < bm.len() {
                        assert(bm[k] == a);
                    }
                }
                if bm.contains(a) {
                    let k = bm.index_of(a);
                    assert(bm.push(c@)[k] == a);
                }
                if a == c@ {
                    assert(bm.push(c@)[bm.len() as int] == a);
                }
            }
            assert(bm.push(c@).to_set() =~= bm.to_set().insert(c@));
        }
        i = i + 1;
    }
    let mut categories: Vec<KnowledgeCategory> = Vec::new();
    let mut j: usize = 0;
    while j < cats.len()
        invariant
            j <= cats@.len(),
            categories@.len() == j,
            forall|m: int| 0 <= m < j ==> #[trigger] categories@[m]@ == (CategoryView { id: cats@[m]@, name: cats@[m]@ }),
        decreases cats@.len() - j,
    {
        categories.push(KnowledgeCategory { id: cats[j].clone(), name: cats[j].clone() });
        j = j + 1;
    }
    let k = DraftKnowledge { categories, documents };
    proof {
        assert(k@.documents =~= ev.map_values(|e: (YamlView, YamlView)| section_document(e.0, e.1)));
        assert(k@.documents.map_values(|d: DocumentView| d.category_id)
            =~= documents@.map_values(|d: KnowledgeDocument| d@.category_id));
        assert(k@.categories.map_values(|c: CategoryView| c.id) =~= strings_view(cats@));
        assert forall|m: int| 0 <= m < k@.documents.len() implies json_canonical(#[trigger] k@.documents[m].metadata) by {
            assert(k@.documents[m] == section_document(ev[m].0, ev[m].1));
            lemma_json_or_empty_canonical(yaml_get(ev[m].1, "metadata"@));
        }
    }
    k
}

/// No two documents share a section name.
pub open spec fn sections_distinct(ds: Seq<DocumentView>) -> bool {
    forall|i: int, j: int| 0 <= i < j < ds.len() ==> #[trigger] ds[i].section != #[trigger] ds[j].section
}

/// The entries of the `sections` mapping when no two documents share a section.
pub open spec fn published_sections(ds: Seq<DocumentView>) -> Seq<(YamlView, YamlView)> {
    ds.map_values(|d: DocumentView| (ystr(d.section), YamlView::Mapping(section_entries(d))))
}

proof fn lemma_fold_sections_distinct(ds: Seq<DocumentView>)
    requires
        sections_distinct(ds),
    ensures
        fold_sections(Seq::empty(), ds) == published_sections(ds),
    decreases ds.len(),
{
    if ds.len() > 0 {
        let init = ds.drop_last();
        assert(sections_distinct(init)) by {
            assert forall|i: int, j: int| 0 <= i < j < init.len() implies #[trigger] init[i].section != #[trigger] init[j].section by {
                assert(init[i] == ds[i] && init[j] == ds[j]);
            }
        }
        lemma_fold_sections_distinct(init);
        let prev = published_sections(init);
        let key = ystr(ds.last().section);
        crate::values::lemma_yaml_key_index(prev, key);
        if let Some(k) = crate::values::yaml_key_index(prev, key) {
            assert(prev[k].0 == ystr(init[k].section));
            assert(init[k] == ds[k]);
            assert(ds[k].section != ds[ds.len() - 1].section);
        }
        assert(published_sections(ds) =~= prev.push((key, YamlView::Mapping(section_entries(ds.last())))));
    }
}

/// What a document's metadata reads back as: the empty object when it was
/// not written (null or empty), itself otherwise.
pub open spec fn metadata_read_back(m: JsonView) -> JsonView {
    if m == JsonView::Null || m == empty_object() { empty_object() } else { m }
}

/// Metadata that is written reads back as itself.
pub open spec fn metadata_reads_back(m: JsonView) -> bool {
    m == JsonView::Null || m == empty_object() || spec_yaml_to_json(spec_json_to_yaml(m)) == Some(m)
}

proof fn lemma_section_reads_back(d: DocumentView)
    requires
        metadata_reads_back(d.metadata),
    ensures
        section_document(ystr(d.section), YamlView::Mapping(section_entries(d))) == (DocumentView {
            id: d.section,
            category_id: category_of(d.section),
            title: d.title,
            section: d.section,
            content: d.content,
            metadata: metadata_read_back(d.metadata),
        }),
{
    reveal_strlit("description");
    reveal_strlit("content");
    reveal_strlit("metadata");
    let e = section_entries(d);
    let m = YamlView::Mapping(e);
    assert("description"@.len() == 11 && "content"@.len() == 7 && "metadata"@.len() == 8);
    assert("description"@ != "content"@);
    assert("description"@ != "metadata"@);
    assert("content"@ != "metadata"@);
    assert(crate::values::yaml_key_index(e, ystr("description"@)) == Some(0int));
    assert(e.drop_first()[0].0 == ystr("content"@));
    assert(crate::values::yaml_key_index(e, ystr("content"@)) == Some(1int)) by {
        assert(crate::values::yaml_key_index(e.drop_first(), ystr("content"@)) == Some(0int));
    }
    if d.metadata != JsonView::Null && d.metadata != empty_object() {
        assert(crate::values::yaml_key_index(e, ystr("metadata"@)) == Some(2int)) by {
            assert(e.drop_first().drop_first()[0].0 == ystr("metadata"@));
            assert(crate::values::yaml_key_index(e.drop_first().drop_first(), ystr("metadata"@)) == Some(0int));
            assert(crate::values::yaml_key_index(e.drop_first(), ystr("metadata"@)) == Some(1int));
        }
    } else {
        assert(crate::values::yaml_key_index(e, ystr("metadata"@)) is None) by {
            let t = e.drop_first().drop_first();
            assert(t.len() == 0);
            assert(crate::values::yaml_key_index(t, ystr("metadata"@)) is None);
            assert(crate::values::yaml_key_index(e.drop_first(), ystr("metadata"@)) is None);
        }
    }
}

/// What the knowledge file of a draft reads back as: a document for each
/// document written, in order, named by its section, in the category of its
/// section's prefix, with its title, content and metadata (an empty object
/// when none was written). This holds when no two documents share a section,
/// for every metadata a JSON value can hold (keys sorted and unique, numbers
/// as JSON keeps them).
pub proof fn law_knowledge_read_back(k: KnowledgeView)
    requires
        sections_distinct(k.documents),
        forall|i: int| 0 <= i < k.documents.len() ==> json_canonical(#[trigger] k.documents[i].metadata),
    ensures
        knowledge_sections(Some(knowledge_document(k))) matches Some(entries)
            && entries.len() == k.documents.len()
            && forall|i: int| 0 <= i < entries.len() ==> #[trigger] section_document(entries[i].0, entries[i].1) == (DocumentView {
                id: k.documents[i].section,
                category_id: category_of(k.documents[i].section),
                title: k.documents[i].title,
                section: k.documents[i].section,
                content: k.documents[i].content,
                metadata: metadata_read_back(k.documents[i].metadata),
            }),
{
    lemma_fold_sections_distinct(k.documents);
    let doc = knowledge_document(k);
    let es = doc->Mapping_0;
    assert(crate::values::yaml_key_index(es, ystr("sections"@)) == Some(0int));
    let entries = published_sections(k.documents);
    assert(knowledge_sections(Some(doc)) == Some(entries));
    assert forall|i: int| 0 <= i < entries.len() implies #[trigger] section_document(entries[i].0, entries[i].1) == (DocumentView {
        id: k.documents[i].section,
        category_id: category_of(k.documents[i].section),
        title: k.documents[i].title,
        section: k.documents[i].section,
        content: k.documents[i].content,
        metadata: metadata_read_back(k.documents[i].metadata),
    }) by {
        crate::values::lemma_json_round_trip(k.documents[i].metadata);
        lemma_section_reads_back(k.documents[i]);
    }
}

/// A document as a knowledge file gives it: named by its section, in the
/// category of the section's prefix, with a JSON object as metadata.
pub open spec fn document_as_read(d: DocumentView) -> bool {
    &&& d.id == d.section
    &&& d.category_id == category_of(d.section)
    &&& d.metadata is Object
    &&& json_canonical(d.metadata)
}

/// A draft's knowledge whose documents are as a knowledge file gives them is
/// written and read back unchanged: the same documents in the same order.
pub proof fn law_knowledge_round_trip(k: KnowledgeView)
    requires
        sections_distinct(k.documents),
        forall|i: int| 0 <= i < k.documents.len() ==> document_as_read(#[trigger] k.documents[i]),
    ensures
        knowledge_sections(Some(knowledge_document(k))) matches Some(entries)
            && entries.map_values(|e: (YamlView, YamlView)| section_document(e.0, e.1)) == k.documents,
{
    law_knowledge_read_back(k);
    let entries = knowledge_sections(Some(knowledge_document(k)))->0;
    let r = entries.map_values(|e: (YamlView, YamlView)| section_document(e.0, e.1));
    assert forall|i: int| 0 <= i < r.len() implies #[trigger] r[i] == k.documents[i] by {
        assert(section_document(entries[i].0, entries[i].1) == r[i]);
        let m = k.documents[i].metadata;
        assert(m != JsonView::Null);
        assert(metadata_read_back(m) == m);
    }
    assert(r =~= k.documents);
}

// ---------------------------------------------------------------------------
// Prompt sets.

/// A prompt template read from its YAML file: the fields of its `template`
/// mapping, or of the file itself when it has none; a missing field is empty.
pub open spec fn template_from(v: YamlView) -> TemplateView {
    let t = match yaml_get(v, "template"@) {
        Some(t) => t,
        None => v,
    };
    TemplateView {
        system: field_or(t, "system"@, Seq::empty()),
        developer: field_or(t, "developer"@, Seq::empty()),
        assembly: field_or(t, "assembly"@, Seq::empty()),
    }
}

/// A draft prompt set read from its three YAML files: name and version from
/// the identity's `meta` (the set's id and "1.0.0" when missing), the
/// identity's `identity` mapping as JSON, and the two templates.
pub open spec fn prompt_set_from(set_id: Seq<char>, identity: YamlView, router: YamlView, response: YamlView) -> PromptSetView {
    let meta = match yaml_get(identity, "meta"@) {
        Some(m) => m,
        None => YamlView::Mapping(Seq::empty()),
    };
    PromptSetView {
        id: set_id,
        name: field_or(meta, "name"@, set_id),
        version: field_or(meta, "version"@, "1.0.0"@),
        identity: json_or_empty(yaml_get(identity, "identity"@)),
        router: template_from(router),
        response: template_from(response),
    }
}

pub fn template_from_yaml(v: &YamlValue) -> (t: DraftPromptTemplate)
    ensures
        t@ == template_from(v@),
{
    let t = match yaml_get_ref(v, "template") {
        Some(t) => t,
        None => v,
    };
    proof {
        reveal_strlit("");
        assert(""@ =~= Seq::<char>::empty());
    }
    DraftPromptTemplate {
        system: field_or_exec(t, "system", ""),
        developer: field_or_exec(t, "developer", ""),
        assembly: field_or_exec(t, "assembly", ""),
    }
}

pub fn prompt_files_to_draft(set_id: &str, identity: &YamlValue, router: &YamlValue, response: &YamlValue) -> (p: DraftPromptSet)
    ensures
        p@ == prompt_set_from(set_id@, identity@, router@, response@),
        json_canonical(p@.identity),
{
    let empty_meta = YamlValue::Mapping(Vec::new());
    proof {
        assert(yaml_entries_view(Seq::<(YamlValue, YamlValue)>::empty()) =~= Seq::<(YamlView, YamlView)>::empty());
    }
    let meta = match yaml_get_ref(identity, "meta") {
        Some(m) => m,
        None => &empty_meta,
    };
    let name = field_or_exec(meta, "name", set_id);
    let version = field_or_exec(meta, "version", "1.0.0");
    DraftPromptSet {
        id: set_id.to_string(),
        name,
        version,
        identity: json_or_empty_exec(yaml_get_ref(identity, "identity")),
        router: template_from_yaml(router),
        response: template_from_yaml(response),
    }
}

// ---------------------------------------------------------------------------
// Flows exported by the runtime.

/// A transition of a flow as the runtime exports it.
pub struct ExportTransition {
    pub action: String,
    pub target: String,
}

/// A node of a flow as the runtime exports it.
pub struct ExportNode {
    pub id: String,
    pub node_type: String,
    pub payload: JsonValue,
    pub transitions: Vec<ExportTransition>,
}

/// The counts the runtime reports with an exported flow.
pub struct ExportStats {
    pub node_count: usize,
    pub end_node_count: usize,
}

/// A loaded flow as the runtime exports it.
pub struct FlowExport {
    pub id: String,
    pub name: Option<String>,
    pub version: Option<u32>,
    pub initial: String,
    pub stats: ExportStats,
    pub nodes: Vec<ExportNode>,
}

/// Where the `i`-th node is drawn: four to a row, 160 apart across and 100 down,
/// starting at (80, 80).
pub open spec fn grid_x(i: nat) -> nat {
    80 + (i % 4) * 160
}

pub open spec fn grid_y(i: nat) -> nat {
    80 + (i / 4) * 100
}

pub open spec fn export_transitions(ts: Seq<ExportTransition>) -> Seq<TransitionView> {
    ts.map_values(|t: ExportTransition| TransitionView { action: t.action@, target: t.target@ })
}

/// The draft node that the `i`-th exported node becomes.
pub open spec fn exported_node(n: ExportNode, i: nat) -> NodeView {
    NodeView {
        id: n.id@,
        node_type: n.node_type@,
        payload: n.payload@,
        transitions: export_transitions(n.transitions@),
        position: Some((f64_bits_of(grid_x(i)) as u64, f64_bits_of(grid_y(i)) as u64)),
    }
}

/// A node exported by the runtime becomes a draft node with the same id, type
/// and payload, and the same transitions in the same order.
pub proof fn law_export_keeps_node(n: ExportNode, i: nat)
    ensures
        exported_node(n, i).id == n.id@,
        exported_node(n, i).node_type == n.node_type@,
        exported_node(n, i).payload == n.payload@,
        exported_node(n, i).transitions.len() == n.transitions@.len(),
        forall|k: int| 0 <= k < n.transitions@.len() ==>
            (#[trigger] exported_node(n, i).transitions[k]).action == n.transitions@[k].action@
            && exported_node(n, i).transitions[k].target == n.transitions@[k].target@,
{
}

fn export_node_to_draft(n: &ExportNode, i: usize) -> (d: DraftFlowNode)
    requires
        i < 0x1_0000_0000_0000,
    ensures
        d@ == exported_node(*n, i as nat),
{
    let mut transitions: Vec<DraftFlowTransition> = Vec::new();
    let mut k: usize = 0;
    while k < n.transitions.len()
        invariant
            k <= n.transitions@.len(),
            transitions@.len() == k,
            forall|j: int| 0 <= j < k ==> #[trigger] transitions@[j]@ == (TransitionView {
                action: n.transitions@[j].action@,
                target: n.transitions@[j].target@,
            }),
        decreases n.transitions@.len() - k,
    {
        let t = &n.transitions[k];
        transitions.push(DraftFlowTransition { action: t.action.clone(), target: t.target.clone() });
        k = k + 1;
    }
    let ii = i as u64;
    let x = 80 + (ii % 4) * 160;
    let y = 80 + (ii / 4) * 100;
    let position = NodePosition { x_bits: f64_bits(x), y_bits: f64_bits(y) };
    let d = DraftFlowNode {
        id: n.id.clone(),
        node_type: n.node_type.clone(),
        payload: crate::values::clone_json(&n.payload),
        transitions,
        position: Some(position),
    };
    assert(d@.transitions =~= export_transitions(n.transitions@));
    d
}

/// The draft of a flow the runtime exported: its nodes in order, laid out on
/// the grid; version 1 when the export has none.
pub fn export_to_draft_flow(export: &FlowExport) -> (f: DraftFlow)
    requires
        export.nodes@.len() < 0x1_0000_0000_0000,
    ensures
        f@.id == export.id@,
        f@.name == opt_str_view(export.name),
        f@.version == (match export.version {
            Some(v) => v,
            None => 1u32,
        }),
        f@.initial == export.initial@,
        f@.nodes.len() == export.nodes@.len(),
        forall|i: int| 0 <= i < f@.nodes.len() ==> #[trigger] f@.nodes[i] == exported_node(export.nodes@[i], i as nat),
        forall|i: int| 0 <= i < f@.nodes.len() ==> {
            &&& (#[trigger] f@.nodes[i]).id == export.nodes@[i].id@
            &&& f@.nodes[i].node_type == export.nodes@[i].node_type@
            &&& f@.nodes[i].payload == export.nodes@[i].payload@
            &&& f@.nodes[i].transitions.len() == export.nodes@[i].transitions@.len()
            &&& forall|k: int| 0 <= k < f@.nodes[i].transitions.len() ==>
                (#[trigger] f@.nodes[i].transitions[k]).action == export.nodes@[i].transitions@[k].action@
                && f@.nodes[i].transitions[k].target == export.nodes@[i].transitions@[k].target@
        },
{
    proof {
        assert forall|i: int| 0 <= i < export.nodes@.len() implies #[trigger] exported_node(export.nodes@[i], i as nat).payload
            == export.nodes@[i].payload@ by {
            law_export_keeps_node(export.nodes@[i], i as nat);
        }
    }
    let mut nodes: Vec<DraftFlowNode> = Vec::new();
    let mut i: usize = 0;
    while i < export.nodes.len()
        invariant
            i <= export.nodes@.len() < 0x1_0000_0000_0000,
            nodes@.len() == i,
            forall|j: int| 0 <= j < i ==> #[trigger] nodes@[j]@ == exported_node(export.nodes@[j], j as nat),
        decreases export.nodes@.len() - i,
    {
        nodes.push(export_node_to_draft(&export.nodes[i], i));
        i = i + 1;
    }
    let version = match export.version {
        Some(v) => v,
        None => 1,
    };
    DraftFlow {
        id: export.id.clone(),
        name: clone_opt_str(&export.name),
        version,
        initial: export.initial.clone(),
        nodes,
    }
}

// ---------------------------------------------------------------------------
// Validation.

/// One issue the flow engine found, with its rule by name.
pub struct EngineIssue {
    pub rule: String,
    pub message: String,
    pub node_id: Option<String>,
    pub action: Option<String>,
    pub target: Option<String>,
}

/// What the flow engine made of a draft flow's YAML document.
pub enum FlowCheck {
    /// The document did not parse; the parser's message.
    ParseFailed(String),
    /// The flow is valid.
    Valid,
    /// The flow broke these rules.
    Invalid(Vec<EngineIssue>),
    /// Validation failed otherwise; the error's message.
    Failed(String),
}

pub struct IssueView {
    pub rule: Seq<char>,
    pub message: Seq<char>,
    pub node_id: Option<Seq<char>>,
    pub action: Option<Seq<char>>,
    pub target: Option<Seq<char>>,
}

impl View for EngineIssue {
    type V = IssueView;

    open spec fn view(&self) -> IssueView {
        IssueView {
            rule: self.rule@,
            message: self.message@,
            node_id: opt_str_view(self.node_id),
            action: opt_str_view(self.action),
            target: opt_str_view(self.target),
        }
    }
}

pub open spec fn issue_dto_view(d: ValidationIssueDto) -> IssueView {
    IssueView {
        rule: d.rule@,
        message: d.message@,
        node_id: opt_str_view(d.node_id),
        action: opt_str_view(d.action),
        target: opt_str_view(d.target),
    }
}

/// An issue that does not stop a flow from being published: an end node
/// with transitions.
pub open spec fn is_blocking(i: IssueView) -> bool {
    i.rule != "EndNodeHasTransitions"@
}

pub open spec fn lone_issue(rule: Seq<char>, message: Seq<char>) -> Seq<IssueView> {
    seq![IssueView { rule, message, node_id: None, action: None, target: None }]
}

/// The studio's verdict on a flow: whether it is valid, and the issues that block it.
pub open spec fn verdict(check: FlowCheck) -> (bool, Seq<IssueView>) {
    match check {
        FlowCheck::ParseFailed(m) => (false, lone_issue("YamlParse"@, m@)),
        FlowCheck::Valid => (true, Seq::empty()),
        FlowCheck::Invalid(issues) => {
            let blocking = issues@.map_values(|i: EngineIssue| i@).filter(|i: IssueView| is_blocking(i));
            (blocking.len() == 0, blocking)
        },
        FlowCheck::Failed(m) => (false, lone_issue("FlowError"@, m@)),
    }
}

fn lone_issue_dto(rule: &str, message: String) -> (r: Vec<ValidationIssueDto>)
    ensures
        r@.map_values(|d: ValidationIssueDto| issue_dto_view(d)) == lone_issue(rule@, message@),
{
    let mut r: Vec<ValidationIssueDto> = Vec::new();
    r.push(ValidationIssueDto {
        rule: rule.to_string(),
        message,
        node_id: None,
        action: None,
        target: None,
    });
    assert(r@.map_values(|d: ValidationIssueDto| issue_dto_view(d)) =~= lone_issue(rule@, message@));
    r
}

/// Whether a draft flow is valid and the issues that block it, from what the
/// flow engine made of it: an end node with transitions does not block.
pub fn validation_verdict(check: FlowCheck) -> (r: (bool, Vec<ValidationIssueDto>))
    ensures
        r.0 == verdict(check).0,
        r.1@.map_values(|d: ValidationIssueDto| issue_dto_view(d)) == verdict(check).1,
{
    match check {
        FlowCheck::ParseFailed(m) => (false, lone_issue_dto("YamlParse", m)),
        FlowCheck::Valid => {
            let r: Vec<ValidationIssueDto> = Vec::new();
            assert(r@.map_values(|d: ValidationIssueDto| issue_dto_view(d)) =~= Seq::<IssueView>::empty());
            (true, r)
        },
        FlowCheck::Invalid(issues) => {
            let ghost pred = |i: IssueView| is_blocking(i);
            let ghost src = issues@.map_values(|i: EngineIssue| i@);
            let mut blocking: Vec<ValidationIssueDto> = Vec::new();
            let mut rest = issues;
            let n = rest.len();
            let ghost all = rest@;
            assert(blocking@.map_values(|d: ValidationIssueDto| issue_dto_view(d)) =~= src.take(0).filter(pred));
            let mut i: usize = 0;
            while i < n
                invariant
                    n == all.len(),
                    src == all.map_values(|i: EngineIssue| i@),
                    pred == (|i: IssueView| is_blocking(i)),
                    i <= n,
                    rest@ == all.subrange(i as int, n as int),
                    blocking@.map_values(|d: ValidationIssueDto| issue_dto_view(d)) == src.take(i as int).filter(pred),
                decreases n - i,
            {
                let e = rest.remove(0);
                assert(e == all[i as int]);
                assert(rest@ =~= all.subrange(i + 1, n as int));
                proof {
                    src.take(i as int).lemma_filter_push(src[i as int], pred);
                    assert(src.take(i + 1) == src.take(i as int).push(src[i as int]));
                }
                let ghost before = blocking@;
                let ghost ev = e@;
                if !crate::text::str_eq(e.rule.as_str(), "EndNodeHasTransitions") {
                    let dto = ValidationIssueDto {
                        rule: e.rule,
                        message: e.message,
                        node_id: e.node_id,
                        action: e.action,
                        target: e.target,
                    };
                    blocking.push(dto);
                    assert(blocking@.map_values(|d: ValidationIssueDto| issue_dto_view(d))
                        =~= before.map_values(|d: ValidationIssueDto| issue_dto_view(d)).push(ev));
                }
                i = i + 1;
            }
            assert(src.take(n as int) == src);
            (blocking.len() == 0, blocking)
        },
        FlowCheck::Failed(m) => (false, lone_issue_dto("FlowError", m)),
    }
}

} // verus!
