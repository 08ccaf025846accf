use ai_api::companies::{CompaniesRegistry, CompanyRegistryEntry};
use ai_api::config::ApiConfig;
use ai_api::dto::overview::GeminiStatusDto;
use ai_api::dto::studio::{CreateFlowRequest, CreateProjectRequest, UpdateProjectRequest, UpsertDocumentRequest};
use ai_api::errors::ApiErrorCode;
use ai_api::handlers::clients::list_clients;
use ai_api::handlers::companies::{active_sessions_for_prompt_set, knowledge_section_count};
use ai_api::handlers::flow_detail::{flow_graph, map_flow};
use ai_api::handlers::knowledge::{knowledge_source_entry, parse_sections};
use ai_api::handlers::overview::{gemini_status, platform_components};
use ai_api::handlers::search::{company_module_source, find_module_path};
use ai_api::handlers::session::{check_message, debug_enabled, module_sources};
use ai_api::handlers::studio::{
    add_flow_to_company, apply_project_update, delete_document, find_version, new_flow, new_project_company,
    register_project, unregister_project, upsert_document,
};
use ai_api::studio::convert::{ExportNode, ExportStats, ExportTransition, FlowExport};
use ai_api::studio::types::{DraftKnowledge, KnowledgeDocument, VersionManifest};
use ai_api::values::{JsonValue, YamlValue};

fn s(v: &str) -> String {
    v.to_string()
}

fn create_request(id: &str) -> CreateProjectRequest {
    CreateProjectRequest { id: s(id), name: s("Test Project"), description: Some(s("temporary")), prompt_set: None, knowledge_source: None, flows: None }
}

#[test]
fn new_project_defaults() {
    let c = new_project_company(&create_request("test_proj")).ok().unwrap();
    assert_eq!(c.prompt_set, "test_proj");
    assert_eq!(c.knowledge_source, "company/test_proj.yaml");
    assert!(c.flows.is_empty());
    let e = new_project_company(&create_request("  ")).err().unwrap();
    assert_eq!((e.code, e.status, e.message.as_str()), (ApiErrorCode::InvalidRequest, 400, "id must not be empty"));
}

fn entry(id: &str) -> CompanyRegistryEntry {
    CompanyRegistryEntry { id: s(id), name: s(id), prompt_set: s("demo"), knowledge_source: s("company/acme.yaml"), flows: vec![s("payment_flow")] }
}

#[test]
fn registering_and_removing_projects() {
    let mut reg = CompaniesRegistry::from_entries(vec![entry("insurance_demo")], s("/data/companies/registry.yaml"));
    let c = new_project_company(&create_request("p2")).ok().unwrap();
    assert!(register_project(&mut reg, &c).is_ok());
    assert_eq!(reg.list().len(), 2);
    let again = register_project(&mut reg, &c).err().unwrap();
    assert_eq!(again.message, "project already exists");
    assert!(unregister_project(&mut reg, "p2").is_ok());
    assert_eq!(reg.list().len(), 1);
    assert_eq!(unregister_project(&mut reg, "p2").err().unwrap().message, "project not found: p2");
}

#[test]
fn project_updates() {
    let mut c = new_project_company(&create_request("p")).ok().unwrap();
    let bad = apply_project_update(&mut c, UpdateProjectRequest { name: Some(s(" ")), description: Some(s("x")) });
    assert_eq!(bad.err().unwrap().message, "name must not be empty");
    assert_eq!(c.name, "Test Project");
    assert_eq!(c.description, Some(s("temporary")));
    assert!(apply_project_update(&mut c, UpdateProjectRequest { name: Some(s("Renamed")), description: None }).is_ok());
    assert_eq!(c.name, "Renamed");
    assert_eq!(c.description, Some(s("temporary")));
}

fn upsert(id: Option<&str>, title: &str) -> UpsertDocumentRequest {
    UpsertDocumentRequest { id: id.map(s), category_id: s("payment"), title: s(title), section: s("faq"), content: s("c"), metadata: None }
}

#[test]
fn knowledge_document_edits() {
    let mut k = DraftKnowledge::default();
    upsert_document(&mut k, upsert(Some("faq_test_studio"), "Studio FAQ"), s("unused"));
    upsert_document(&mut k, upsert(None, "Fresh"), s("uuid-1"));
    assert_eq!(k.documents.len(), 2);
    assert_eq!(k.documents[1].id, "uuid-1");
    assert!(matches!(&k.documents[0].metadata, JsonValue::Object(es) if es.is_empty()));
    upsert_document(&mut k, upsert(Some("faq_test_studio"), "Changed"), s("unused"));
    assert_eq!(k.documents.len(), 2);
    assert_eq!(k.documents[0].title, "Changed");
    k.documents.push(KnowledgeDocument { id: s("faq_test_studio"), category_id: s("x"), title: s("dup"), section: s("s"), content: s("c"), metadata: JsonValue::Null });
    delete_document(&mut k, "faq_test_studio");
    let ids: Vec<&str> = k.documents.iter().map(|d| d.id.as_str()).collect();
    assert_eq!(ids, vec!["uuid-1"]);
    assert_eq!(k.categories.len(), 1);
}

#[test]
fn new_flow_template() {
    let f = new_flow(&CreateFlowRequest { id: s("temp_flow"), name: Some(s("Temp")), initial: None });
    assert_eq!(f.initial, "start");
    assert_eq!(f.version, 1);
    assert_eq!(f.nodes.len(), 2);
    assert_eq!(f.nodes[0].id, "start");
    assert_eq!(f.nodes[0].transitions[0].action, "finish");
    assert_eq!(f.nodes[0].transitions[0].target, "end");
    let p0 = f.nodes[0].position.as_ref().unwrap();
    let p1 = f.nodes[1].position.as_ref().unwrap();
    assert_eq!((f64::from_bits(p0.x_bits), f64::from_bits(p0.y_bits)), (120.0, 80.0));
    assert_eq!((f64::from_bits(p1.x_bits), f64::from_bits(p1.y_bits)), (120.0, 220.0));
    let mut c = new_project_company(&create_request("p")).ok().unwrap();
    assert!(add_flow_to_company(&mut c, "temp_flow"));
    assert!(!add_flow_to_company(&mut c, "temp_flow"));
    assert_eq!(c.flows, vec![s("temp_flow")]);
}

#[test]
fn finds_a_version() {
    let v = |n: u32, at: &str| VersionManifest { version: n, published_at: s(at), project_id: s("p"), files: Vec::new() };
    let found = find_version(vec![v(1, "a"), v(2, "b"), v(2, "c")], 2).ok().unwrap();
    assert_eq!(found.published_at, "b");
    let missing = find_version(vec![v(1, "a")], 7).err().unwrap();
    assert_eq!(missing.message, "version not found: 7");
}

#[test]
fn clients_are_listed_by_path() {
    let r = list_clients(&vec![s("b.json"), s("a.json"), s("a.b.json"), s("readme.md")]);
    let paths: Vec<&str> = r.clients.iter().map(|c| c.path.as_str()).collect();
    assert_eq!(paths, vec!["clients/a.b.json", "clients/a.json", "clients/b.json"]);
    let names: Vec<&str> = r.clients.iter().map(|c| c.name.as_str()).collect();
    assert_eq!(names, vec!["a.b", "a", "b"]);
}

#[test]
fn counts_sessions_by_prompt_set() {
    assert_eq!(active_sessions_for_prompt_set(&vec![s("demo"), s("x"), s("demo")], "demo"), 2);
    assert_eq!(active_sessions_for_prompt_set(&Vec::new(), "demo"), 0);
}

fn ys(v: &str) -> YamlValue {
    YamlValue::String(s(v))
}

#[test]
fn knowledge_sections_sorted_by_id() {
    let file = YamlValue::Mapping(vec![(
        ys("sections"),
        YamlValue::Mapping(vec![
            (ys("zeta"), YamlValue::Mapping(vec![(ys("content"), ys("z"))])),
            (ys("alpha"), YamlValue::Mapping(vec![(ys("description"), ys("A")), (ys("content"), ys("a"))])),
        ]),
    )]);
    let sections = parse_sections(&file);
    let ids: Vec<&str> = sections.iter().map(|x| x.id.as_str()).collect();
    assert_eq!(ids, vec!["alpha", "zeta"]);
    assert_eq!(sections[0].description, Some(s("A")));
    assert_eq!(sections[1].description, None);
    assert_eq!(knowledge_section_count(Some(&file)), 2);
    assert_eq!(knowledge_section_count(None), 0);
    assert!(parse_sections(&YamlValue::Null).is_empty());
    let e = knowledge_source_entry(s("acme"), 3);
    assert_eq!(e.path, "company/acme.yaml");
}

#[test]
fn flow_graph_edges() {
    let n = |id: &str, ts: Vec<(&str, &str)>| ExportNode {
        id: s(id),
        node_type: s("flow"),
        payload: JsonValue::Null,
        transitions: ts.into_iter().map(|(a, t)| ExportTransition { action: s(a), target: s(t) }).collect(),
    };
    let export = FlowExport {
        id: s("payment_flow"),
        name: Some(s("Payment")),
        version: Some(3),
        initial: s("greeting"),
        stats: ExportStats { node_count: 3, end_node_count: 1 },
        nodes: vec![n("greeting", vec![("confirm", "payment"), ("wrong_person", "end")]), n("payment", vec![("done", "end")]), n("end", vec![])],
    };
    let g = flow_graph(&export);
    let edges: Vec<(&str, &str, &str)> = g.edges.iter().map(|e| (e.from.as_str(), e.to.as_str(), e.action.as_str())).collect();
    assert_eq!(edges, vec![("greeting", "payment", "confirm"), ("greeting", "end", "wrong_person"), ("payment", "end", "done")]);
    assert_eq!(g.flow_id, "payment_flow");
    let d = map_flow(&export);
    assert_eq!(d.version, Some(3));
    assert_eq!(d.stats.end_node_count, 1);
    assert_eq!(d.nodes[0].transitions.len(), 2);
}

#[test]
fn platform_status_components() {
    let g = gemini_status(true, Some("  "), None, Some(s("m")));
    assert!(g.enabled && !g.configured);
    assert_eq!(g.model_router, "gemini-2.5-flash");
    assert_eq!(g.model_response, "m");
    let c = platform_components(false, true, &g);
    let states: Vec<(&str, &str)> = c.iter().map(|x| (x.id.as_str(), x.status.as_str())).collect();
    assert_eq!(states[1], ("prompt_registry", "degraded"));
    assert_eq!(states[2], ("flow_registry", "ok"));
    assert_eq!(states[3], ("gemini", "not_configured"));
    assert_eq!(c.len(), 8);
    let off = GeminiStatusDto { enabled: false, configured: true, model_router: s("a"), model_response: s("b") };
    assert_eq!(platform_components(true, false, &off)[3].status, "mock");
}

#[test]
fn search_module_paths() {
    let config = ApiConfig::for_test("/data");
    assert_eq!(find_module_path(&config, "smalltalk"), Some(s("/data/modules/smalltalk.yaml")));
    assert_eq!(find_module_path(&config, "nope"), None);
    assert_eq!(company_module_source(&config, Some("company/other.yaml")), Some(s("/data/company/other.yaml")));
    assert_eq!(company_module_source(&config, None), Some(s("/data/company/acme.yaml")));
    let sources = module_sources(&config);
    assert_eq!(sources[0], (s("company"), s("/data/company/acme.yaml")));
}

#[test]
fn message_checks() {
    assert!(check_message("да, это я").is_ok());
    assert_eq!(check_message(" \n").err().unwrap().message, "message must not be empty");
    assert!(debug_enabled(true, None));
    assert!(debug_enabled(false, Some("TRUE")));
    assert!(debug_enabled(false, Some("On")));
    assert!(!debug_enabled(false, Some("no")));
    assert!(!debug_enabled(false, None));
}

#[test]
fn sections_with_one_id_keep_file_order() {
    let file = YamlValue::Mapping(vec![(
        ys("sections"),
        YamlValue::Mapping(vec![
            (ys("b"), YamlValue::Mapping(vec![(ys("content"), ys("first b"))])),
            (YamlValue::Bool(true), YamlValue::Mapping(vec![(ys("content"), ys("unnamed 1"))])),
            (ys("a"), YamlValue::Mapping(vec![(ys("content"), ys("a"))])),
            (YamlValue::Null, YamlValue::Mapping(vec![(ys("content"), ys("unnamed 2"))])),
        ]),
    )]);
    let sections = parse_sections(&file);
    let got: Vec<(&str, &str)> = sections.iter().map(|x| (x.id.as_str(), x.content.as_str())).collect();
    assert_eq!(got, vec![("", "unnamed 1"), ("", "unnamed 2"), ("a", "a"), ("b", "first b")]);
}

#[test]
fn unknown_prompt_set_is_not_found() {
    let e = ai_api::handlers::prompt::prompt_set_not_found("ghost");
    assert_eq!((e.code, e.status, e.message.as_str()), (ApiErrorCode::NotFound, 404, "prompt set not found: ghost"));
    assert_eq!(ApiErrorCode::NotFound.name(), "NOT_FOUND");
}
