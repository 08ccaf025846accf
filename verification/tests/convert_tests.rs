use ai_api::dto::studio::ValidationIssueDto;
use ai_api::float_bits::f64_bits;
use ai_api::studio::convert::{
    draft_flow_document, export_to_draft_flow, knowledge_yaml_document, prompt_files_to_draft,
    template_from_yaml, validation_verdict, yaml_to_knowledge, EngineIssue, ExportNode, ExportStats,
    ExportTransition, FlowCheck, FlowExport,
};
use ai_api::studio::types::{DraftFlow, DraftFlowNode, DraftFlowTransition, DraftKnowledge, KnowledgeCategory, KnowledgeDocument};
use ai_api::values::{JsonValue, Number, YamlValue};

fn ys(s: &str) -> YamlValue {
    YamlValue::String(s.to_string())
}

fn ymap(entries: Vec<(&str, YamlValue)>) -> YamlValue {
    YamlValue::Mapping(entries.into_iter().map(|(k, v)| (ys(k), v)).collect())
}

fn keys(v: &YamlValue) -> Vec<String> {
    match v {
        YamlValue::Mapping(es) => es
            .iter()
            .map(|(k, _)| match k {
                YamlValue::String(s) => s.clone(),
                _ => "?".to_string(),
            })
            .collect(),
        _ => Vec::new(),
    }
}

fn get<'a>(v: &'a YamlValue, key: &str) -> &'a YamlValue {
    match v {
        YamlValue::Mapping(es) => &es.iter().find(|(k, _)| matches!(k, YamlValue::String(s) if s == key)).unwrap().1,
        _ => panic!("not a mapping"),
    }
}

fn text(v: &YamlValue) -> String {
    match v {
        YamlValue::String(s) => s.clone(),
        _ => panic!("not text"),
    }
}

fn sample_flow() -> DraftFlow {
    DraftFlow {
        id: "pay".to_string(),
        name: Some("Payment".to_string()),
        version: 2,
        initial: "start".to_string(),
        nodes: vec![
            DraftFlowNode {
                id: "start".to_string(),
                node_type: "flow".to_string(),
                payload: JsonValue::Object(vec![
                    ("task".to_string(), JsonValue::String("Ask".to_string())),
                    ("type".to_string(), JsonValue::String("ignored".to_string())),
                ]),
                transitions: vec![
                    DraftFlowTransition { action: "go".to_string(), target: "end".to_string() },
                    DraftFlowTransition { action: "go".to_string(), target: "start".to_string() },
                ],
                position: None,
            },
            DraftFlowNode {
                id: "end".to_string(),
                node_type: "end".to_string(),
                payload: JsonValue::Null,
                transitions: Vec::new(),
                position: None,
            },
        ],
    }
}

#[test]
fn flow_document_layout() {
    let doc = draft_flow_document(&sample_flow());
    assert_eq!(keys(&doc), vec!["id", "name", "version", "initial", "nodes"]);
    assert!(matches!(get(&doc, "version"), YamlValue::Number(Number::PosInt(2))));
    let nodes = get(&doc, "nodes");
    assert_eq!(keys(nodes), vec!["start", "end"]);
    let start = get(nodes, "start");
    assert_eq!(keys(start), vec!["type", "task", "transitions"]);
    assert_eq!(text(get(start, "type")), "flow");
    let transitions = get(start, "transitions");
    assert_eq!(keys(transitions), vec!["go"]);
    assert_eq!(text(get(transitions, "go")), "start");
    assert_eq!(keys(get(nodes, "end")), vec!["type"]);
}

#[test]
fn flow_document_without_name() {
    let mut f = sample_flow();
    f.name = None;
    let doc = draft_flow_document(&f);
    assert_eq!(keys(&doc), vec!["id", "version", "initial", "nodes"]);
}

fn document(id: &str, metadata: JsonValue) -> KnowledgeDocument {
    KnowledgeDocument {
        id: id.to_string(),
        category_id: "c".to_string(),
        title: format!("T {id}"),
        section: id.to_string(),
        content: format!("C {id}"),
        metadata,
    }
}

#[test]
fn knowledge_document_layout() {
    let k = DraftKnowledge {
        categories: Vec::new(),
        documents: vec![
            document("a", JsonValue::Null),
            document("b", JsonValue::Object(Vec::new())),
            document("c", JsonValue::Object(vec![("tags".to_string(), JsonValue::String("x".to_string()))])),
        ],
    };
    let doc = knowledge_yaml_document(&k);
    let sections = get(&doc, "sections");
    assert_eq!(keys(sections), vec!["a", "b", "c"]);
    assert_eq!(keys(get(sections, "a")), vec!["description", "content"]);
    assert_eq!(keys(get(sections, "b")), vec!["description", "content"]);
    assert_eq!(keys(get(sections, "c")), vec!["description", "content", "metadata"]);
    assert_eq!(text(get(get(sections, "a"), "description")), "T a");
}

#[test]
fn knowledge_from_yaml_file() {
    let file = ymap(vec![(
        "sections",
        ymap(vec![
            ("payment_card", ymap(vec![("description", ys("Card")), ("content", ys("Pay by card"))])),
            ("faq_1", ymap(vec![("content", ys("Q")), ("metadata", ymap(vec![("tags", ys("t"))]))])),
            ("payment_cash", ymap(vec![])),
        ]),
    )]);
    let k = yaml_to_knowledge(Some(&file));
    let ids: Vec<&str> = k.documents.iter().map(|d| d.id.as_str()).collect();
    assert_eq!(ids, vec!["payment_card", "faq_1", "payment_cash"]);
    let cats: Vec<(&str, &str)> = k.categories.iter().map(|c| (c.id.as_str(), c.name.as_str())).collect();
    assert_eq!(cats, vec![("faq", "faq"), ("payment", "payment")]);
    assert_eq!(k.documents[0].title, "Card");
    assert_eq!(k.documents[1].title, "faq_1");
    assert_eq!(k.documents[2].content, "");
    assert!(matches!(&k.documents[0].metadata, JsonValue::Object(es) if es.is_empty()));
    assert!(matches!(&k.documents[1].metadata, JsonValue::Object(es) if es.len() == 1));
}

#[test]
fn knowledge_without_sections_is_default() {
    let k = yaml_to_knowledge(None);
    assert_eq!(k.categories.len(), 1);
    assert_eq!(k.categories[0].id, "general");
    assert_eq!(k.categories[0].name, "General");
    assert!(k.documents.is_empty());
    let empty = ymap(vec![("sections", ymap(vec![]))]);
    let k2 = yaml_to_knowledge(Some(&empty));
    assert!(k2.categories.is_empty() && k2.documents.is_empty());
    let _ = KnowledgeCategory { id: String::new(), name: String::new() };
}

#[test]
fn prompt_files_defaults() {
    let identity = ymap(vec![("identity", ymap(vec![("name", ys("Alex"))]))]);
    let router = ymap(vec![("template", ymap(vec![("system", ys("S")), ("assembly", ys("A"))]))]);
    let response = ymap(vec![("developer", ys("D"))]);
    let p = prompt_files_to_draft("demo", &identity, &router, &response);
    assert_eq!(p.id, "demo");
    assert_eq!(p.name, "demo");
    assert_eq!(p.version, "1.0.0");
    assert_eq!(p.router.system, "S");
    assert_eq!(p.router.developer, "");
    assert_eq!(p.router.assembly, "A");
    assert_eq!(p.response.developer, "D");
    assert!(matches!(&p.identity, JsonValue::Object(es) if es.len() == 1));
    let meta = ymap(vec![("meta", ymap(vec![("name", ys("Demo")), ("version", ys("2.0"))]))]);
    let q = prompt_files_to_draft("demo", &meta, &router, &response);
    assert_eq!(q.name, "Demo");
    assert_eq!(q.version, "2.0");
    assert!(matches!(&q.identity, JsonValue::Object(es) if es.is_empty()));
    let t = template_from_yaml(&ys("not a mapping"));
    assert_eq!((t.system.as_str(), t.developer.as_str(), t.assembly.as_str()), ("", "", ""));
}

#[test]
fn float_bits_match_std() {
    for n in [0u64, 1, 2, 3, 80, 120, 220, 240, 560, 1023, 1 << 40, (1u64 << 53) - 1] {
        assert_eq!(f64_bits(n), (n as f64).to_bits(), "n = {n}");
    }
}

#[test]
fn export_lays_nodes_on_a_grid() {
    let node = |id: &str| ExportNode {
        id: id.to_string(),
        node_type: "flow".to_string(),
        payload: JsonValue::Null,
        transitions: vec![ExportTransition { action: "a".to_string(), target: "b".to_string() }],
    };
    let export = FlowExport {
        id: "f".to_string(),
        name: None,
        version: None,
        initial: "n0".to_string(),
        stats: ExportStats { node_count: 6, end_node_count: 0 },
        nodes: (0..6).map(|i| node(&format!("n{i}"))).collect(),
    };
    let draft = export_to_draft_flow(&export);
    assert_eq!(draft.version, 1);
    assert_eq!(draft.nodes.len(), 6);
    let expect = [(80.0, 80.0), (240.0, 80.0), (400.0, 80.0), (560.0, 80.0), (80.0, 180.0), (240.0, 180.0)];
    for (n, (x, y)) in draft.nodes.iter().zip(expect.iter()) {
        let p = n.position.as_ref().unwrap();
        assert_eq!(f64::from_bits(p.x_bits), *x);
        assert_eq!(f64::from_bits(p.y_bits), *y);
    }
    assert_eq!(draft.nodes[0].transitions[0].target, "b");
}

fn issue(rule: &str) -> EngineIssue {
    EngineIssue {
        rule: rule.to_string(),
        message: format!("m {rule}"),
        node_id: Some("n".to_string()),
        action: None,
        target: Some("t".to_string()),
    }
}

#[test]
fn validation_verdicts() {
    let (ok, issues) = validation_verdict(FlowCheck::Valid);
    assert!(ok && issues.is_empty());
    let (ok, issues) = validation_verdict(FlowCheck::Invalid(vec![issue("EndNodeHasTransitions")]));
    assert!(ok && issues.is_empty());
    let (ok, issues) = validation_verdict(FlowCheck::Invalid(vec![
        issue("UnknownTransitionTarget"),
        issue("EndNodeHasTransitions"),
        issue("MissingEndNode"),
    ]));
    assert!(!ok);
    let rules: Vec<&str> = issues.iter().map(|i: &ValidationIssueDto| i.rule.as_str()).collect();
    assert_eq!(rules, vec!["UnknownTransitionTarget", "MissingEndNode"]);
    assert_eq!(issues[0].target, Some("t".to_string()));
    let (ok, issues) = validation_verdict(FlowCheck::ParseFailed("bad yaml".to_string()));
    assert!(!ok);
    assert_eq!((issues[0].rule.as_str(), issues[0].message.as_str()), ("YamlParse", "bad yaml"));
    let (ok, issues) = validation_verdict(FlowCheck::Failed("engine".to_string()));
    assert!(!ok);
    assert_eq!(issues[0].rule, "FlowError");
}

#[test]
fn knowledge_written_then_read_back() {
    let mut first = document("payment_card", JsonValue::Null);
    first.category_id = "other".to_string();
    let second = document("faq_1", JsonValue::Object(vec![("tags".to_string(), JsonValue::String("t".to_string()))]));
    let k = DraftKnowledge { categories: Vec::new(), documents: vec![first, second] };
    let back = yaml_to_knowledge(Some(&knowledge_yaml_document(&k)));
    let ids: Vec<&str> = back.documents.iter().map(|d| d.id.as_str()).collect();
    assert_eq!(ids, vec!["payment_card", "faq_1"]);
    assert_eq!(back.documents[0].category_id, "payment");
    assert_eq!(back.documents[0].section, "payment_card");
    assert_eq!(back.documents[0].title, "T payment_card");
    assert_eq!(back.documents[0].content, "C payment_card");
    assert!(matches!(&back.documents[0].metadata, JsonValue::Object(es) if es.is_empty()));
    assert_eq!(back.documents[1].category_id, "faq");
    assert!(matches!(&back.documents[1].metadata, JsonValue::Object(es) if es.len() == 1));
}

#[test]
fn object_metadata_reads_back_whole() {
    let metadata = JsonValue::Object(vec![
        ("a".to_string(), JsonValue::Number(Number::PosInt(1))),
        ("b".to_string(), JsonValue::Object(vec![("c".to_string(), JsonValue::Number(Number::NegInt(-2)))])),
        ("d".to_string(), JsonValue::Array(vec![JsonValue::Bool(true), JsonValue::Null])),
    ]);
    let k = DraftKnowledge { categories: Vec::new(), documents: vec![document("pay_x", metadata)] };
    let back = yaml_to_knowledge(Some(&knowledge_yaml_document(&k)));
    match &back.documents[0].metadata {
        JsonValue::Object(es) => {
            let keys: Vec<&str> = es.iter().map(|(k, _)| k.as_str()).collect();
            assert_eq!(keys, vec!["a", "b", "d"]);
            assert!(matches!(&es[0].1, JsonValue::Number(Number::PosInt(1))));
            assert!(matches!(&es[1].1, JsonValue::Object(inner) if inner.len() == 1 && inner[0].0 == "c"
                && matches!(inner[0].1, JsonValue::Number(Number::NegInt(-2)))));
            assert!(matches!(&es[2].1, JsonValue::Array(items) if items.len() == 2));
        }
        _ => panic!("metadata is not an object"),
    }
}

#[test]
fn yaml_mapping_reads_as_sorted_object() {
    let m = ymap(vec![("zeta", ys("z")), ("alpha", ys("a"))]);
    match ai_api::values::yaml_to_json(&m) {
        Some(JsonValue::Object(es)) => {
            let keys: Vec<&str> = es.iter().map(|(k, _)| k.as_str()).collect();
            assert_eq!(keys, vec!["alpha", "zeta"]);
        }
        _ => panic!("not an object"),
    }
}
