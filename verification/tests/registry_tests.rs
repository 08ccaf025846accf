use ai_api::companies::{CompaniesError, CompaniesRegistry, CompaniesRegistryFile, CompanyRegistryEntry, RegistryRead};
use ai_api::eval_store::{EvalRunState, EvalRunStore};
use ai_api::middleware::{request_id_or, tracing_filter};
use ai_api::state::{flow_files, loaded_flow, FlowInfo, FlowRegistry};

fn s(v: &str) -> String {
    v.to_string()
}

fn entry(id: &str, name: &str) -> CompanyRegistryEntry {
    CompanyRegistryEntry { id: s(id), name: s(name), prompt_set: s("demo"), knowledge_source: s("company/acme.yaml"), flows: Vec::new() }
}

#[test]
fn registry_loading() {
    match CompaniesRegistry::load("/data", RegistryRead::Missing) {
        Err(CompaniesError::NotFound(p)) => assert_eq!(p, "/data/companies/registry.yaml"),
        _ => panic!("expected NotFound"),
    }
    match CompaniesRegistry::load("/data", RegistryRead::Unreadable(s("denied"))) {
        Err(CompaniesError::Invalid(m)) => assert_eq!(m, "read /data/companies/registry.yaml: denied"),
        _ => panic!("expected Invalid"),
    }
    let file = CompaniesRegistryFile { companies: vec![entry("a", "A")] };
    let reg = CompaniesRegistry::reload("/data", RegistryRead::Parsed(file)).ok().unwrap();
    assert_eq!(reg.path(), "/data/companies/registry.yaml");
    assert_eq!(reg.list()[0].id, "a");
    assert_eq!(CompaniesError::NotFound(s("x")).text(), "companies registry not found: x");
}

#[test]
fn registry_edits() {
    let mut reg = CompaniesRegistry::from_entries(vec![entry("a", "A"), entry("b", "B"), entry("a", "A2")], s("p"));
    reg.upsert(entry("b", "B!"));
    reg.upsert(entry("c", "C"));
    let names: Vec<&str> = reg.list().iter().map(|e| e.name.as_str()).collect();
    assert_eq!(names, vec!["A", "B!", "A2", "C"]);
    reg.rename("a", "Renamed");
    assert_eq!(reg.get("a").unwrap().name, "Renamed");
    reg.remove("a");
    let ids: Vec<&str> = reg.list().iter().map(|e| e.id.as_str()).collect();
    assert_eq!(ids, vec!["b", "c"]);
    assert!(reg.contains("c") && !reg.contains("a"));
    assert_eq!(reg.to_file().companies.len(), 2);
}

#[test]
fn eval_run_lifecycle() {
    let mut store = EvalRunStore::new();
    let id = store.insert_pending(s("run-1"), 7);
    assert_eq!(id, "run-1");
    assert!(matches!(store.get("run-1").map(|r| &r.state), Some(EvalRunState::Pending)));
    store.set_running("run-1");
    assert!(matches!(store.get("run-1").map(|r| &r.state), Some(EvalRunState::Running)));
    store.set_failed("run-1", s("boom"));
    assert!(matches!(store.get("run-1").map(|r| &r.state), Some(EvalRunState::Failed { error }) if error == "boom"));
    assert_eq!(store.get("run-1").unwrap().started_at, 7);
    store.set_running("unknown");
    assert!(store.get("unknown").is_none());
    store.insert_pending(s("run-1"), 9);
    assert!(matches!(store.get("run-1").map(|r| &r.state), Some(EvalRunState::Pending)));
    assert_eq!(store.get("run-1").unwrap().started_at, 9);
    assert_eq!(store.get("run-1").unwrap().run_id, "run-1");
}

#[test]
fn flow_files_and_registry() {
    let names = vec![s("b.yaml"), s("a.yaml"), s("notes.md"), s(".yaml")];
    let files = flow_files("/data/flows", &names).ok().unwrap();
    assert_eq!(files, vec![s("/data/flows/a.yaml"), s("/data/flows/b.yaml")]);
    let none = flow_files("/data/flows", &vec![s("x.txt")]).err().unwrap();
    assert_eq!(none.message, "no flow yaml files in /data/flows");
    let bad = loaded_flow("a", s("b"), None, None, s("/x")).err().unwrap();
    assert_eq!(bad.message, "flow id mismatch: yaml id=a loaded=b");
    let info = loaded_flow("payment_flow", s("payment_flow"), Some(s("Payment")), Some(s("1")), s("/data/flows/p.yaml")).ok().unwrap();
    let mut reg = FlowRegistry::new(Vec::new());
    assert!(!reg.contains("payment_flow"));
    reg.replace(vec![info, FlowInfo { id: s("other"), name: None, version: None, source_path: s("/o") }]);
    assert!(reg.contains("payment_flow") && reg.contains("other"));
    assert_eq!(reg.list().len(), 2);
}

#[test]
fn request_ids() {
    assert_eq!(request_id_or(Some("abc"), s("fresh")).0, "abc");
    assert_eq!(request_id_or(None, s("fresh")).0, "fresh");
    assert_eq!(tracing_filter("debug"), "ai_api=debug,tower_http=info");
}
