use ai_api::config::ApiConfig;
use ai_api::studio::publish::{
    backup_dir, backup_published, manifest_after_publish, prompt_identity_json, prompt_template_json,
    publish_start, publish_step, restore_backup, PublishStage, PublishState, PublishStep, StageOutcome,
};
use ai_api::studio::store::StudioStore;
use ai_api::studio::types::{DraftCompany, DraftManifest, DraftPromptSet, DraftPromptTemplate};
use ai_api::studio::convert::prompt_files_to_draft;
use ai_api::values::{json_to_yaml, JsonValue};

fn run(outcomes: Vec<StageOutcome>, latest: u32) -> (Vec<PublishStage>, PublishStep) {
    let mut state = publish_start();
    let mut seen = Vec::new();
    let mut outcomes = outcomes.into_iter();
    loop {
        seen.push(state.stage);
        let outcome = outcomes.next().unwrap_or(StageOutcome::Passed);
        match publish_step(state, outcome, latest) {
            PublishStep::Continue(next) => state = next,
            other => return (seen, other),
        }
    }
}

#[test]
fn publish_runs_every_stage_in_order() {
    let mut outcomes: Vec<StageOutcome> = (0..6).map(|_| StageOutcome::Passed).collect();
    outcomes.push(StageOutcome::EvalsPassed { report: JsonValue::Null });
    let (seen, step) = run(outcomes, 4);
    assert_eq!(
        seen,
        vec![
            PublishStage::Validate,
            PublishStage::Backup,
            PublishStage::Save,
            PublishStage::Reindex,
            PublishStage::ReloadPrompts,
            PublishStage::ReloadFlows,
            PublishStage::Evals,
            PublishStage::Version,
        ]
    );
    match step {
        PublishStep::Complete { response, version } => {
            assert_eq!(version, 5);
            assert_eq!(response.status, "completed");
            assert_eq!(response.version, Some(5));
            assert_eq!(response.stage, Some("done".to_string()));
            assert!(response.error.is_none());
            assert!(matches!(response.report, Some(JsonValue::Null)));
        },
        _ => panic!("publish did not complete"),
    }
}

fn stop_at(stage_index: usize, outcome: StageOutcome) -> (String, Option<String>, bool, bool) {
    let mut outcomes: Vec<StageOutcome> = (0..stage_index).map(|_| StageOutcome::Passed).collect();
    outcomes.push(outcome);
    match run(outcomes, 0).1 {
        PublishStep::Stop { response, restore, reload } => {
            assert_eq!(response.status, "failed");
            assert!(response.version.is_none());
            (response.stage.unwrap(), response.error, restore, reload)
        },
        _ => panic!("publish did not stop"),
    }
}

#[test]
fn failures_restore_the_backup_only_after_it_was_made() {
    let (stage, error, restore, reload) = stop_at(
        0,
        StageOutcome::FlowInvalid { flow_id: "pay".to_string(), issues: "[x]".to_string() },
    );
    assert_eq!((stage.as_str(), restore, reload), ("validate", false, false));
    assert_eq!(error, Some("flow pay invalid: [x]".to_string()));
    let (stage, _, restore, _) = stop_at(1, StageOutcome::Failed("disk".to_string()));
    assert_eq!((stage.as_str(), restore), ("backup", false));
    let (stage, _, restore, _) = stop_at(2, StageOutcome::Failed("disk".to_string()));
    assert_eq!((stage.as_str(), restore), ("save", true));
    let (stage, error, restore, _) = stop_at(3, StageOutcome::SearchFailed);
    assert_eq!((stage.as_str(), restore), ("reindex", true));
    assert_eq!(error, Some("search smoke test failed".to_string()));
    let (stage, _, restore, _) = stop_at(4, StageOutcome::Failed("p".to_string()));
    assert_eq!((stage.as_str(), restore), ("reload_prompts", true));
    let (stage, _, restore, reload) = stop_at(5, StageOutcome::Failed("f".to_string()));
    assert_eq!((stage.as_str(), restore, reload), ("reload_flows", true, false));
    let (stage, error, restore, reload) =
        stop_at(6, StageOutcome::EvalsFailed { failed: 2, total: 7, report: JsonValue::Null });
    assert_eq!((stage.as_str(), restore, reload), ("evals", true, true));
    assert_eq!(error, Some("evals failed: 2/7".to_string()));
    let (stage, _, restore, reload) = stop_at(6, StageOutcome::Failed("crash".to_string()));
    assert_eq!((stage.as_str(), restore, reload), ("evals", true, false));
    let mut to_version: Vec<StageOutcome> = (0..6).map(|_| StageOutcome::Passed).collect();
    to_version.push(StageOutcome::EvalsPassed { report: JsonValue::Null });
    to_version.push(StageOutcome::Failed("snapshot".to_string()));
    match run(to_version, 0).1 {
        PublishStep::Stop { response, restore, .. } => {
            assert_eq!(response.stage, Some("version".to_string()));
            assert!(!restore);
        },
        _ => panic!("publish did not stop"),
    }
}

#[test]
fn a_publish_state_carries_its_version() {
    let s = PublishState { stage: PublishStage::Evals, report: None, version: 0 };
    match publish_step(s, StageOutcome::Passed, 9) {
        PublishStep::Continue(next) => {
            assert_eq!(next.stage, PublishStage::Version);
            assert_eq!(next.version, 10);
        },
        _ => panic!("expected the version stage"),
    }
}

fn company() -> DraftCompany {
    DraftCompany {
        id: "acme".to_string(),
        name: "Acme".to_string(),
        description: None,
        prompt_set: "demo".to_string(),
        knowledge_source: "company/acme.yaml".to_string(),
        flows: vec!["payment_flow".to_string()],
    }
}

#[test]
fn backup_and_restore_copy_the_published_files() {
    let config = ApiConfig::for_test("/data");
    let store = StudioStore::new("/data");
    let dir = backup_dir(&store, "acme", 1700000000);
    assert_eq!(dir, "/data/studio/backups/acme-1700000000");
    assert_eq!(backup_dir(&store, "acme", -5), "/data/studio/backups/acme--5");
    let out = backup_published(&config, &company(), &dir);
    let back = restore_backup(&config, &company(), &dir);
    let expected_out = vec![
        ("/data/companies/registry.yaml".to_string(), format!("{dir}/registry.yaml")),
        ("/data/flows/payment_flow.yaml".to_string(), format!("{dir}/payment_flow.yaml")),
        ("/data/company/acme.yaml".to_string(), format!("{dir}/knowledge.yaml")),
    ];
    assert_eq!(out, expected_out);
    let expected_back: Vec<(String, String)> = expected_out.into_iter().map(|(a, b)| (b, a)).collect();
    assert_eq!(back, expected_back);
}

#[test]
fn published_prompt_files() {
    let t = |s: &str| DraftPromptTemplate { system: format!("{s}S"), developer: format!("{s}D"), assembly: format!("{s}A") };
    let p = DraftPromptSet {
        id: "demo".to_string(),
        name: "Demo".to_string(),
        version: "1.0.0".to_string(),
        identity: JsonValue::Object(Vec::new()),
        router: t("r"),
        response: t("p"),
    };
    let identity = prompt_identity_json(&p);
    match &identity {
        JsonValue::Object(es) => {
            let keys: Vec<&str> = es.iter().map(|(k, _)| k.as_str()).collect();
            assert_eq!(keys, vec!["identity", "meta"]);
        },
        _ => panic!("not an object"),
    }
    match prompt_template_json(&p, &p.router) {
        JsonValue::Object(es) => {
            assert_eq!(es[1].0, "template");
            match &es[1].1 {
                JsonValue::Object(inner) => {
                    let vals: Vec<(&str, &str)> = inner
                        .iter()
                        .map(|(k, v)| (k.as_str(), match v { JsonValue::String(s) => s.as_str(), _ => "" }))
                        .collect();
                    assert_eq!(vals, vec![("assembly", "rA"), ("developer", "rD"), ("system", "rS")]);
                },
                _ => panic!("template is not an object"),
            }
        },
        _ => panic!("not an object"),
    }
}

#[test]
fn manifest_after_a_publish() {
    let mut m = DraftManifest::created("acme".to_string(), "t0".to_string());
    manifest_after_publish(&mut m, 3, "t1".to_string());
    assert!(!m.dirty);
    assert_eq!(m.published_version, 3);
    assert_eq!(m.edited_at, Some("t1".to_string()));
    assert_eq!(m.bootstrapped_at, Some("t0".to_string()));
}

#[test]
fn published_prompt_files_read_back() {
    let p = DraftPromptSet {
        id: "demo".to_string(),
        name: "Demo set".to_string(),
        version: "2.1.0".to_string(),
        identity: JsonValue::Object(vec![
            ("company".to_string(), JsonValue::String("Acme".to_string())),
            ("name".to_string(), JsonValue::String("Alex".to_string())),
        ]),
        router: DraftPromptTemplate { system: "rs".to_string(), developer: "rd".to_string(), assembly: "ra".to_string() },
        response: DraftPromptTemplate { system: "ps".to_string(), developer: "pd".to_string(), assembly: "pa".to_string() },
    };
    let identity = json_to_yaml(&prompt_identity_json(&p));
    let router = json_to_yaml(&prompt_template_json(&p, &p.router));
    let response = json_to_yaml(&prompt_template_json(&p, &p.response));
    let back = prompt_files_to_draft("demo", &identity, &router, &response);
    assert_eq!(back.id, "demo");
    assert_eq!(back.name, "Demo set");
    assert_eq!(back.version, "2.1.0");
    match &back.identity {
        JsonValue::Object(es) => {
            let keys: Vec<&str> = es.iter().map(|(k, _)| k.as_str()).collect();
            assert_eq!(keys, vec!["company", "name"]);
        }
        _ => panic!("identity is not an object"),
    }
    assert_eq!((back.router.system.as_str(), back.router.developer.as_str(), back.router.assembly.as_str()), ("rs", "rd", "ra"));
    assert_eq!((back.response.system.as_str(), back.response.developer.as_str(), back.response.assembly.as_str()), ("ps", "pd", "pa"));
}
