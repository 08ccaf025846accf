use ai_api::companies::CompanyRegistryEntry;
use ai_api::config::ApiConfig;
use ai_api::sorting::{insert_sorted_unique, sort_strings};
use ai_api::studio::store::{
    json_ids_sorted, json_stem_of, latest_version_of, manifest_or_new, remove_flow_id, sort_versions,
    version_of_name, StudioStore,
};
use ai_api::studio::types::{DraftCompany, DraftManifest, VersionManifest};

fn strings(v: &[&str]) -> Vec<String> {
    v.iter().map(|s| s.to_string()).collect()
}

#[test]
fn sorts_names_by_character_order() {
    let sorted = sort_strings(strings(&["b", "a.b", "a", "B", "", "ä"]));
    assert_eq!(sorted, strings(&["", "B", "a", "a.b", "b", "ä"]));
}

#[test]
fn inserts_each_name_once_in_order() {
    let mut set: Vec<String> = Vec::new();
    for name in ["payment", "faq", "payment", "general", "faq"] {
        insert_sorted_unique(&mut set, name.to_string());
    }
    assert_eq!(set, strings(&["faq", "general", "payment"]));
}

#[test]
fn studio_paths() {
    let store = StudioStore::new("/data");
    assert_eq!(store.root(), "/data/studio");
    assert_eq!(store.draft_dir("p1"), "/data/studio/drafts/p1");
    assert_eq!(store.versions_dir("p1"), "/data/studio/versions/p1");
    assert_eq!(store.draft_file("p1", "company.json"), "/data/studio/drafts/p1/company.json");
    assert_eq!(store.draft_item("p1", "flows", "payment_flow"), "/data/studio/drafts/p1/flows/payment_flow.json");
    assert_eq!(store.version_dir("p1", 12), "/data/studio/versions/p1/v12");
    let (drafts, versions) = store.studio_dirs();
    assert_eq!(drafts, "/data/studio/drafts");
    assert_eq!(versions, "/data/studio/versions");
}

#[test]
fn lists_json_ids_sorted() {
    let ids = json_ids_sorted(&strings(&["b.json", "notes.txt", "a.json", ".json", "c.json.bak", "a.b.json"]));
    assert_eq!(ids, strings(&["a", "a.b", "b"]));
    assert_eq!(json_stem_of("x.json"), Some("x".to_string()));
    assert_eq!(json_stem_of(".json"), None);
    assert_eq!(json_stem_of("..json"), Some(".".to_string()));
}

#[test]
fn latest_version_of_listing() {
    assert_eq!(latest_version_of(&strings(&["v1", "v10", "v2", "tmp", "vx", "v+3"])), 10);
    assert_eq!(latest_version_of(&Vec::new()), 0);
    assert_eq!(version_of_name("v4294967295"), Some(u32::MAX));
    assert_eq!(version_of_name("v4294967296"), None);
    assert_eq!(version_of_name("v"), None);
    assert_eq!(version_of_name("V1"), None);
}

fn version(n: u32, at: &str) -> VersionManifest {
    VersionManifest { version: n, published_at: at.to_string(), project_id: "p".to_string(), files: Vec::new() }
}

#[test]
fn sorts_versions_by_number() {
    let sorted = sort_versions(vec![version(3, "c"), version(1, "a"), version(2, "b1"), version(2, "b2")]);
    let numbers: Vec<u32> = sorted.iter().map(|v| v.version).collect();
    assert_eq!(numbers, vec![1, 2, 2, 3]);
    let times: Vec<&str> = sorted.iter().map(|v| v.published_at.as_str()).collect();
    assert_eq!(times, vec!["a", "b1", "b2", "c"]);
}

fn company() -> DraftCompany {
    DraftCompany {
        id: "acme".to_string(),
        name: "Acme".to_string(),
        description: Some("d".to_string()),
        prompt_set: "demo".to_string(),
        knowledge_source: "company/acme.yaml".to_string(),
        flows: strings(&["payment_flow", "temp_flow", "payment_flow", "other"]),
    }
}

#[test]
fn removing_a_flow_drops_every_copy() {
    let mut c = company();
    remove_flow_id(&mut c, "payment_flow");
    assert_eq!(c.flows, strings(&["temp_flow", "other"]));
    assert_eq!(c.description, Some("d".to_string()));
}

#[test]
fn registry_entry_round_trip() {
    let entry = CompanyRegistryEntry {
        id: "acme".to_string(),
        name: "Acme".to_string(),
        prompt_set: "demo".to_string(),
        knowledge_source: "company/acme.yaml".to_string(),
        flows: strings(&["payment_flow"]),
    };
    let c = StudioStore::company_from_registry(&entry);
    assert_eq!(c.description, None);
    let back = StudioStore::registry_entry_from_company(&c);
    assert_eq!(back.id, entry.id);
    assert_eq!(back.name, entry.name);
    assert_eq!(back.prompt_set, entry.prompt_set);
    assert_eq!(back.knowledge_source, entry.knowledge_source);
    assert_eq!(back.flows, entry.flows);
}

#[test]
fn knowledge_source_path_resolves_under_data_root() {
    let config = ApiConfig::for_test("/data");
    assert_eq!(StudioStore::knowledge_source_path(&config, "company/acme.yaml"), "/data/company/acme.yaml");
}

#[test]
fn manifest_edits() {
    let mut m = manifest_or_new(None, "p");
    assert_eq!(m.project_id, "p");
    assert!(!m.dirty);
    assert_eq!(m.published_version, 0);
    m.mark_edited("2024-01-01T00:00:00Z".to_string());
    assert!(m.dirty);
    assert_eq!(m.edited_at, Some("2024-01-01T00:00:00Z".to_string()));
    assert!(m.mark_bootstrapped("t1".to_string()));
    assert!(!m.mark_bootstrapped("t2".to_string()));
    assert_eq!(m.bootstrapped_at, Some("t1".to_string()));
    let b = DraftManifest::bootstrapped("p".to_string(), 3, "now".to_string());
    assert!(!b.dirty && b.published_version == 3 && b.edited_at.is_none());
    let c = DraftManifest::created("p".to_string(), "now".to_string());
    assert!(c.dirty && c.published_version == 0);
    assert_eq!(c.edited_at, Some("now".to_string()));
    assert_eq!(c.bootstrapped_at, Some("now".to_string()));
    let kept = manifest_or_new(Some(c), "other");
    assert_eq!(kept.project_id, "p");
}
