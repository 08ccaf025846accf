//! The publish pipeline's decisions. Publishing runs a fixed series of
//! stages (validate the flows, back up the published files, save the draft
//! over them, smoke-test search, reload prompts, reload flows, run the
//! evaluations, snapshot a version); the caller performs each stage and
//! reports its outcome, and [`publish_step`] says what comes next: the next
//! stage, or the answer together with whether the backup must be restored.

use vstd::prelude::*;
use vstd::string::StringExecFns;

use crate::config::ApiConfig;
use crate::dto::studio::PublishResponse;
use crate::paths::{join, path_join};
use crate::studio::store::StudioStore;
use crate::studio::types::{opt_str_view, DraftCompany, DraftManifest, DraftPromptSet, DraftPromptTemplate, ManifestView};
use crate::text::{signed_decimal, i64_to_decimal, decimal, u64_to_decimal};
use crate::studio::convert::{prompt_set_from, template_from};
use crate::studio::types::{PromptSetView, TemplateView};
use crate::text::seq_less;
use crate::values::{clone_json, json_canonical, lemma_values_canonical, spec_json_to_yaml, JsonValue, JsonView, YamlView};

verus! {

/// The stages of a publish, in the order they run.
#[derive(PartialEq, Eq, Structural, Clone, Copy, Debug)]
pub enum PublishStage {
    Validate,
    Backup,
    Save,
    Reindex,
    ReloadPrompts,
    ReloadFlows,
    Evals,
    Version,
}

impl PublishStage {
    /// The stage's name in a publish answer.
    pub open spec fn spec_name(self) -> Seq<char> {
        match self {
            PublishStage::Validate => "validate"@,
            PublishStage::Backup => "backup"@,
            PublishStage::Save => "save"@,
            PublishStage::Reindex => "reindex"@,
            PublishStage::ReloadPrompts => "reload_prompts"@,
            PublishStage::ReloadFlows => "reload_flows"@,
            PublishStage::Evals => "evals"@,
            PublishStage::Version => "version"@,
        }
    }

    pub fn name(&self) -> (s: String)
        ensures
            s@ == self.spec_name(),
    {
        let r = match self {
            PublishStage::Validate => "validate",
            PublishStage::Backup => "backup",
            PublishStage::Save => "save",
            PublishStage::Reindex => "reindex",
            PublishStage::ReloadPrompts => "reload_prompts",
            PublishStage::ReloadFlows => "reload_flows",
            PublishStage::Evals => "evals",
            PublishStage::Version => "version",
        };
        r.to_string()
    }

    /// Whether a failure at this stage happens after the published files were
    /// touched, so that the backup must be put back.
    pub open spec fn restores(self) -> bool {
        match self {
            PublishStage::Save | PublishStage::Reindex | PublishStage::ReloadPrompts
            | PublishStage::ReloadFlows | PublishStage::Evals => true,
            _ => false,
        }
    }

    /// The stage that follows this one; none follows the version snapshot.
    pub open spec fn next(self) -> Option<PublishStage> {
        match self {
            PublishStage::Validate => Some(PublishStage::Backup),
            PublishStage::Backup => Some(PublishStage::Save),
            PublishStage::Save => Some(PublishStage::Reindex),
            PublishStage::Reindex => Some(PublishStage::ReloadPrompts),
            PublishStage::ReloadPrompts => Some(PublishStage::ReloadFlows),
            PublishStage::ReloadFlows => Some(PublishStage::Evals),
            PublishStage::Evals => Some(PublishStage::Version),
            PublishStage::Version => None,
        }
    }
}

/// The stage reached after `k` stages have passed, from the start.
pub open spec fn stage_after(k: nat) -> Option<PublishStage>
    decreases k,
{
    if k == 0 {
        Some(PublishStage::Validate)
    } else {
        match stage_after((k - 1) as nat) {
            Some(s) => s.next(),
            None => None,
        }
    }
}

/// A publish whose stages all pass runs eight stages, each once: it starts by
/// validating, takes the backup next, and ends with the version snapshot.
/// The backup is put back on a failure exactly at the stages between the
/// backup and the snapshot.
pub proof fn law_publish_order()
    ensures
        stage_after(0) == Some(PublishStage::Validate),
        stage_after(1) == Some(PublishStage::Backup),
        stage_after(7) == Some(PublishStage::Version),
        stage_after(8) is None,
        forall|i: nat, j: nat| i < j <= 7 ==> #[trigger] stage_after(i) != #[trigger] stage_after(j),
        forall|k: nat| k <= 7 ==> (#[trigger] stage_after(k))->0.restores() == (2 <= k <= 6),
{
    reveal_with_fuel(stage_after, 9);
    assert(stage_after(2) == Some(PublishStage::Save));
    assert(stage_after(3) == Some(PublishStage::Reindex));
    assert(stage_after(4) == Some(PublishStage::ReloadPrompts));
    assert(stage_after(5) == Some(PublishStage::ReloadFlows));
    assert(stage_after(6) == Some(PublishStage::Evals));
    assert(stage_after(7) == Some(PublishStage::Version));
    assert(stage_after(8) is None);
}

/// What the caller found when it ran a stage.
pub enum StageOutcome {
    /// The stage did its work.
    Passed,
    /// The stage failed with this message.
    Failed(String),
    /// A draft flow is invalid: its id and its issues as text.
    FlowInvalid { flow_id: String, issues: String },
    /// The search smoke test found the draft's knowledge unusable.
    SearchFailed,
    /// The evaluations ran; some scenarios failed. The report as JSON.
    EvalsFailed { failed: usize, total: usize, report: JsonValue },
    /// The evaluations ran and all passed. The report as JSON.
    EvalsPassed { report: JsonValue },
}

/// Where a publish stands: the stage to run next, the report of the
/// evaluations once they passed, and the version being published.
pub struct PublishState {
    pub stage: PublishStage,
    pub report: Option<JsonValue>,
    pub version: u32,
}

/// What to do after a stage.
pub enum PublishStep {
    /// Run the stage of this state.
    Continue(PublishState),
    /// Stop and answer `response`. If `restore`, put the backup back first;
    /// if `reload`, reload the runtime's flows and prompts after that.
    Stop { response: PublishResponse, restore: bool, reload: bool },
    /// The version was snapshotted: mark the draft published at `version`,
    /// drop the backup and answer `response`.
    Complete { response: PublishResponse, version: u32 },
}

/// The view of a publish answer.
pub struct ResponseView {
    pub status: Seq<char>,
    pub version: Option<u32>,
    pub stage: Option<Seq<char>>,
    pub error: Option<Seq<char>>,
    pub report: Option<JsonView>,
}

pub open spec fn response_view(r: PublishResponse) -> ResponseView {
    ResponseView {
        status: r.status@,
        version: r.version,
        stage: opt_str_view(r.stage),
        error: opt_str_view(r.error),
        report: match r.report {
            Some(j) => Some(j@),
            None => None,
        },
    }
}

/// A failed publish: stopped at `stage` with `error`.
pub open spec fn failed_at(stage: PublishStage, error: Seq<char>, report: Option<JsonView>) -> ResponseView {
    ResponseView { status: "failed"@, version: None, stage: Some(stage.spec_name()), error: Some(error), report }
}

/// The message a failed stage is answered with.
pub open spec fn failure_message(outcome: StageOutcome) -> Seq<char> {
    match outcome {
        StageOutcome::Failed(m) => m@,
        StageOutcome::FlowInvalid { flow_id, issues } => "flow "@ + flow_id@ + " invalid: "@ + issues@,
        StageOutcome::SearchFailed => "search smoke test failed"@,
        StageOutcome::EvalsFailed { failed, total, .. } =>
            "evals failed: "@ + decimal(failed as nat) + "/"@ + decimal(total as nat),
        _ => Seq::empty(),
    }
}

/// Whether an outcome is a failure.
pub open spec fn is_failure(outcome: StageOutcome) -> bool {
    !(outcome is Passed || outcome is EvalsPassed)
}

/// The first state of a publish.
pub fn publish_start() -> (s: PublishState)
    ensures
        s.stage == PublishStage::Validate,
        s.report is None,
{
    PublishState { stage: PublishStage::Validate, report: None, version: 0 }
}

fn failed_response(stage: PublishStage, error: String, report: Option<JsonValue>) -> (r: PublishResponse)
    ensures
        response_view(r) == failed_at(stage, error@, match report {
            Some(j) => Some(j@),
            None => None,
        }),
{
    PublishResponse {
        status: "failed".to_string(),
        version: None,
        stage: Some(stage.name()),
        error: Some(error),
        report,
    }
}

fn failure_text(outcome: &StageOutcome) -> (m: String)
    ensures
        m@ == failure_message(*outcome),
{
    match outcome {
        StageOutcome::Failed(m) => m.clone(),
        StageOutcome::FlowInvalid { flow_id, issues } => {
            let mut m = "flow ".to_string();
            m.append(flow_id.as_str());
            m.append(" invalid: ");
            m.append(issues.as_str());
            m
        },
        StageOutcome::SearchFailed => "search smoke test failed".to_string(),
        StageOutcome::EvalsFailed { failed, total, .. } => {
            let mut m = "evals failed: ".to_string();
            let f = u64_to_decimal(*failed as u64);
            m.append(f.as_str());
            m.append("/");
            let t = u64_to_decimal(*total as u64);
            m.append(t.as_str());
            m
        },
        _ => String::new(),
    }
}

/// What follows a stage whose outcome is `outcome`. `latest_version` is the
/// project's latest published version, read when the evaluations have passed.
///
/// A failure stops the publish with an answer naming the stage; it restores
/// the backup exactly when the stage came after the backup and before the
/// snapshot, and reloads the runtime after that only when evaluations
/// failed. Passing the evaluations fixes the new version at one past the
/// latest; passing the snapshot completes the publish with that version.
pub fn publish_step(state: PublishState, outcome: StageOutcome, latest_version: u32) -> (step: PublishStep)
    requires
        state.stage == PublishStage::Evals && !is_failure(outcome) ==> latest_version < u32::MAX,
    ensures
        is_failure(outcome) ==> (step matches PublishStep::Stop { response, restore, reload }
            && response_view(response) == failed_at(state.stage, failure_message(outcome), match outcome {
                StageOutcome::EvalsFailed { report, .. } => Some(report@),
                _ => None,
            })
            && restore == state.stage.restores()
            && reload == (outcome is EvalsFailed && state.stage.restores())),
        !is_failure(outcome) && state.stage != PublishStage::Version && state.stage != PublishStage::Evals
            ==> (step matches PublishStep::Continue(next)
            && Some(next.stage) == state.stage.next()
            && next.version == state.version
            && (match (next.report, state.report) {
                (Some(a), Some(b)) => a@ == b@,
                (None, None) => true,
                _ => false,
            })),
        !is_failure(outcome) && state.stage == PublishStage::Evals ==> (step matches PublishStep::Continue(next)
            && next.stage == PublishStage::Version
            && next.version == latest_version + 1
            && (match outcome {
                StageOutcome::EvalsPassed { report } => next.report matches Some(r) && r@ == report@,
                _ => next.report is None,
            })),
        !is_failure(outcome) && state.stage == PublishStage::Version ==> (step matches PublishStep::Complete { response, version }
            && version == state.version
            && response_view(response) == (ResponseView {
                status: "completed"@,
                version: Some(state.version),
                stage: Some("done"@),
                error: None,
                report: match state.report {
                    Some(j) => Some(j@),
                    None => None,
                },
            })),
{
    let stage = state.stage;
    let failed = match &outcome {
        StageOutcome::Passed | StageOutcome::EvalsPassed { .. } => false,
        _ => true,
    };
    if failed {
        let restore = match stage {
            PublishStage::Save | PublishStage::Reindex | PublishStage::ReloadPrompts
            | PublishStage::ReloadFlows | PublishStage::Evals => true,
            _ => false,
        };
        let message = failure_text(&outcome);
        let (report, evals_failed) = match outcome {
            StageOutcome::EvalsFailed { report, .. } => (Some(report), true),
            _ => (None, false),
        };
        let response = failed_response(stage, message, report);
        return PublishStep::Stop { response, restore, reload: evals_failed && restore };
    }
    match stage {
        PublishStage::Version => {
            let report = match &state.report {
                Some(j) => Some(clone_json(j)),
                None => None,
            };
            let response = PublishResponse {
                status: "completed".to_string(),
                version: Some(state.version),
                stage: Some("done".to_string()),
                error: None,
                report,
            };
            PublishStep::Complete { response, version: state.version }
        },
        PublishStage::Evals => {
            let report = match outcome {
                StageOutcome::EvalsPassed { report } => Some(report),
                _ => None,
            };
            PublishStep::Continue(PublishState { stage: PublishStage::Version, report, version: latest_version + 1 })
        },
        _ => {
            let next = match stage {
                PublishStage::Validate => PublishStage::Backup,
                PublishStage::Backup => PublishStage::Save,
                PublishStage::Save => PublishStage::Reindex,
                PublishStage::Reindex => PublishStage::ReloadPrompts,
                PublishStage::ReloadPrompts => PublishStage::ReloadFlows,
                _ => PublishStage::Evals,
            };
            PublishStep::Continue(PublishState { stage: next, report: state.report, version: state.version })
        },
    }
}

/// The draft's manifest once a version is published at `now`: clean, at that version.
pub fn manifest_after_publish(manifest: &mut DraftManifest, version: u32, now: String)
    ensures
        final(manifest)@ == (ManifestView {
            dirty: false,
            published_version: version,
            edited_at: Some(now@),
            ..old(manifest)@
        }),
{
    manifest.dirty = false;
    manifest.published_version = version;
    manifest.edited_at = Some(now);
}

/// Where a publish keeps its backup: `backups/<project>-<timestamp>` in the studio.
pub fn backup_dir(store: &StudioStore, project_id: &str, timestamp: i64) -> (d: String)
    ensures
        d@ == path_join(path_join(store@, "backups"@), project_id@ + "-"@ + signed_decimal(timestamp as int)),
{
    let backups = join(store.root(), "backups");
    let mut name = project_id.to_string();
    name.append("-");
    let ts = i64_to_decimal(timestamp);
    name.append(ts.as_str());
    join(backups.as_str(), name.as_str())
}

/// The published files a project touches, each with the name it has in a
/// backup or a version: the companies registry, each flow of the company,
/// and its knowledge source.
pub open spec fn published_files(data_root: Seq<char>, flows_dir: Seq<char>, company: crate::studio::types::CompanyView) -> Seq<(Seq<char>, Seq<char>)> {
    seq![(path_join(data_root, "companies/registry.yaml"@), "registry.yaml"@)]
        + company.flows.map_values(|f: Seq<char>| (path_join(flows_dir, f + ".yaml"@), f + ".yaml"@))
        + seq![(path_join(data_root, company.knowledge_source), "knowledge.yaml"@)]
}

/// The published files of a project and their names in a backup.
pub fn published_file_list(config: &ApiConfig, company: &DraftCompany) -> (r: Vec<(String, String)>)
    ensures
        r@.map_values(|p: (String, String)| (p.0@, p.1@)) == published_files(config.data_root@, config.flows_dir@, company@),
{
    let mut r: Vec<(String, String)> = Vec::new();
    r.push((config.resolve_data_path("companies/registry.yaml"), "registry.yaml".to_string()));
    let mut i: usize = 0;
    while i < company.flows.len()
        invariant
            i <= company.flows@.len(),
            r@.len() == i + 1,
            r@[0].0@ == path_join(config.data_root@, "companies/registry.yaml"@),
            r@[0].1@ == "registry.yaml"@,
            forall|j: int| 1 <= j <= i ==> #[trigger] r@[j].0@ == path_join(config.flows_dir@, company.flows@[j - 1]@ + ".yaml"@)
                && r@[j].1@ == company.flows@[j - 1]@ + ".yaml"@,
        decreases company.flows@.len() - i,
    {
        let name = company.flows[i].clone().concat(".yaml");
        let path = join(config.flows_dir.as_str(), name.as_str());
        r.push((path, name));
        i = i + 1;
    }
    let ghost before = r@;
    r.push((StudioStore::knowledge_source_path(config, company.knowledge_source.as_str()), "knowledge.yaml".to_string()));
    proof {
        let pf = published_files(config.data_root@, config.flows_dir@, company@);
        let rv = r@.map_values(|p: (String, String)| (p.0@, p.1@));
        let n = company.flows@.len();
        assert(pf.len() == n + 2);
        assert forall|k: int| 0 <= k < pf.len() implies #[trigger] rv[k] == pf[k] by {
            if 1 <= k <= n {
                assert(company@.flows[k - 1] == company.flows@[k - 1]@);
                assert(r@[k] == before[k]);
                assert(before[k].0@ == path_join(config.flows_dir@, company.flows@[k - 1]@ + ".yaml"@));
            }
        }
        assert(rv =~= pf);
    }
    r
}

/// The copies that put a backup back: each file of the backup over its
/// published place. A copy is made only when the backup holds that file.
pub fn restore_backup(config: &ApiConfig, company: &DraftCompany, backup_dir: &str) -> (copies: Vec<(String, String)>)
    ensures
        copies@.len() == published_files(config.data_root@, config.flows_dir@, company@).len(),
        forall|i: int| 0 <= i < copies@.len() ==> {
            let f = #[trigger] published_files(config.data_root@, config.flows_dir@, company@)[i];
            copies@[i].0@ == path_join(backup_dir@, f.1) && copies@[i].1@ == f.0
        },
{
    copies_between(config, company, backup_dir, false)
}

/// The copies that back up the published files: each published file into
/// the backup. A copy is made only when the published file exists.
pub fn backup_published(config: &ApiConfig, company: &DraftCompany, backup_dir: &str) -> (copies: Vec<(String, String)>)
    ensures
        copies@.len() == published_files(config.data_root@, config.flows_dir@, company@).len(),
        forall|i: int| 0 <= i < copies@.len() ==> {
            let f = #[trigger] published_files(config.data_root@, config.flows_dir@, company@)[i];
            copies@[i].0@ == f.0 && copies@[i].1@ == path_join(backup_dir@, f.1)
        },
{
    copies_between(config, company, backup_dir, true)
}

fn copies_between(config: &ApiConfig, company: &DraftCompany, dir: &str, outward: bool) -> (copies: Vec<(String, String)>)
    ensures
        copies@.len() == published_files(config.data_root@, config.flows_dir@, company@).len(),
        forall|i: int| 0 <= i < copies@.len() ==> {
            let f = #[trigger] published_files(config.data_root@, config.flows_dir@, company@)[i];
            if outward {
                copies@[i].0@ == f.0 && copies@[i].1@ == path_join(dir@, f.1)
            } else {
                copies@[i].0@ == path_join(dir@, f.1) && copies@[i].1@ == f.0
            }
        },
{
    let files = published_file_list(config, company);
    let ghost fv = files@.map_values(|p: (String, String)| (p.0@, p.1@));
    let mut copies: Vec<(String, String)> = Vec::new();
    let mut i: usize = 0;
    while i < files.len()
        invariant
            i <= files@.len(),
            fv == files@.map_values(|p: (String, String)| (p.0@, p.1@)),
            fv == published_files(config.data_root@, config.flows_dir@, company@),
            copies@.len() == i,
            forall|j: int| 0 <= j < i ==> {
                let f = #[trigger] fv[j];
                if outward {
                    copies@[j].0@ == f.0 && copies@[j].1@ == path_join(dir@, f.1)
                } else {
                    copies@[j].0@ == path_join(dir@, f.1) && copies@[j].1@ == f.0
                }
            },
        decreases files@.len() - i,
    {
        let inside = join(dir, files[i].1.as_str());
        let published = files[i].0.clone();
        assert(fv[i as int] == (files@[i as int].0@, files@[i as int].1@));
        if outward {
            copies.push((published, inside));
        } else {
            copies.push((inside, published));
        }
        i = i + 1;
    }
    copies
}

/// The record of a version just published.
pub fn version_manifest(version: u32, published_at: String, project_id: &str, files: Vec<String>) -> (m: crate::studio::types::VersionManifest)
    ensures
        m.version == version,
        m.published_at@ == published_at@,
        m.project_id@ == project_id@,
        m.files@ == files@,
{
    crate::studio::types::VersionManifest { version, published_at, project_id: project_id.to_string(), files }
}

pub open spec fn jstr(s: Seq<char>) -> JsonView {
    JsonView::String(s)
}

/// The `meta` object of each published prompt file.
pub open spec fn prompt_meta(p: crate::studio::types::PromptSetView) -> JsonView {
    JsonView::Object(seq![("id"@, jstr(p.id)), ("name"@, jstr(p.name)), ("version"@, jstr(p.version))])
}

/// The published `identity.yaml` of a prompt set, as JSON (keys in order).
pub open spec fn identity_file(p: crate::studio::types::PromptSetView) -> JsonView {
    JsonView::Object(seq![("identity"@, p.identity), ("meta"@, prompt_meta(p))])
}

/// The published `router.yaml` or `response.yaml` of a prompt set, as JSON.
pub open spec fn template_file(p: crate::studio::types::PromptSetView, t: crate::studio::types::TemplateView) -> JsonView {
    JsonView::Object(seq![
        ("meta"@, prompt_meta(p)),
        ("template"@, JsonView::Object(seq![
            ("assembly"@, jstr(t.assembly)),
            ("developer"@, jstr(t.developer)),
            ("system"@, jstr(t.system)),
        ])),
    ])
}

fn prompt_meta_json(p: &DraftPromptSet) -> (j: JsonValue)
    ensures
        j@ == prompt_meta(p@),
{
    let mut es: Vec<(String, JsonValue)> = Vec::new();
    es.push(("id".to_string(), JsonValue::String(p.id.clone())));
    es.push(("name".to_string(), JsonValue::String(p.name.clone())));
    es.push(("version".to_string(), JsonValue::String(p.version.clone())));
    proof {
        crate::values::lemma_json_entries_view(es@);
        assert(crate::values::json_entries_view(es@) =~= prompt_meta(p@)->Object_0);
    }
    JsonValue::Object(es)
}

/// The content of a prompt set's published `identity.yaml`.
pub fn prompt_identity_json(p: &DraftPromptSet) -> (j: JsonValue)
    ensures
        j@ == identity_file(p@),
        json_canonical(p@.identity) ==> json_canonical(j@),
{
    proof {
        lemma_prompt_files_canonical(p@, p@.router);
    }
    let mut es: Vec<(String, JsonValue)> = Vec::new();
    es.push(("identity".to_string(), clone_json(&p.identity)));
    es.push(("meta".to_string(), prompt_meta_json(p)));
    proof {
        crate::values::lemma_json_entries_view(es@);
        assert(crate::values::json_entries_view(es@) =~= identity_file(p@)->Object_0);
    }
    JsonValue::Object(es)
}

/// The content of a prompt set's published `router.yaml` (with its router
/// template) or `response.yaml` (with its response template).
pub fn prompt_template_json(p: &DraftPromptSet, t: &DraftPromptTemplate) -> (j: JsonValue)
    ensures
        j@ == template_file(p@, t@),
        json_canonical(j@),
{
    proof {
        lemma_prompt_files_canonical(p@, t@);
    }
    let mut inner: Vec<(String, JsonValue)> = Vec::new();
    inner.push(("assembly".to_string(), JsonValue::String(t.assembly.clone())));
    inner.push(("developer".to_string(), JsonValue::String(t.developer.clone())));
    inner.push(("system".to_string(), JsonValue::String(t.system.clone())));
    let mut es: Vec<(String, JsonValue)> = Vec::new();
    es.push(("meta".to_string(), prompt_meta_json(p)));
    es.push(("template".to_string(), JsonValue::Object(inner)));
    proof {
        crate::values::lemma_json_entries_view(inner@);
        crate::values::lemma_json_entries_view(es@);
        assert(crate::values::json_entries_view(inner@) =~= template_file(p@, t@)->Object_0[1].1->Object_0);
        assert(crate::values::json_entries_view(es@) =~= template_file(p@, t@)->Object_0);
    }
    JsonValue::Object(es)
}

/// The prompt files that a publish writes (`identity.yaml`, `router.yaml`,
/// `response.yaml`) read back, once laid out as YAML, as the prompt set that
/// was published. This holds for every identity a JSON value can hold (keys
/// sorted and unique, numbers as JSON keeps them).
pub proof fn law_prompt_read_back(p: PromptSetView)
    requires
        json_canonical(p.identity),
    ensures
        prompt_set_from(
            p.id,
            spec_json_to_yaml(identity_file(p)),
            spec_json_to_yaml(template_file(p, p.router)),
            spec_json_to_yaml(template_file(p, p.response)),
        ) == p,
{
    reveal_strlit("id");
    reveal_strlit("name");
    reveal_strlit("version");
    reveal_strlit("identity");
    reveal_strlit("meta");
    reveal_strlit("template");
    reveal_strlit("assembly");
    reveal_strlit("developer");
    reveal_strlit("system");
    assert("id"@.len() == 2 && "name"@.len() == 4 && "version"@.len() == 7);
    assert("identity"@.len() == 8 && "meta"@.len() == 4);
    let meta_entries = prompt_meta(p)->Object_0;
    assert(meta_entries[0].0 != meta_entries[1].0 && meta_entries[0].0 != meta_entries[2].0
        && meta_entries[1].0 != meta_entries[2].0);
    crate::values::lemma_distinct_entries_to_yaml(meta_entries);
    let meta = spec_json_to_yaml(prompt_meta(p));
    let me = meta->Mapping_0;
    assert(me.len() == 3);
    crate::values::lemma_yaml_key_index(me, YamlView::String("name"@));
    crate::values::lemma_yaml_key_index(me, YamlView::String("version"@));
    assert(me[0].0 == YamlView::String("id"@));
    assert(me[1].0 == YamlView::String("name"@));
    assert(me[2].0 == YamlView::String("version"@));
    assert(crate::values::yaml_get(meta, "name"@) == Some(YamlView::String(p.name)));
    assert(crate::values::yaml_get(meta, "version"@) == Some(YamlView::String(p.version)));

    let id_entries = identity_file(p)->Object_0;
    assert(id_entries[0].0 != id_entries[1].0);
    crate::values::lemma_distinct_entries_to_yaml(id_entries);
    let idf = spec_json_to_yaml(identity_file(p));
    let ie = idf->Mapping_0;
    assert(ie.len() == 2);
    assert(ie[0] == (YamlView::String("identity"@), spec_json_to_yaml(p.identity)));
    assert(ie[1] == (YamlView::String("meta"@), meta));
    assert(ie.drop_first()[0] == ie[1]);
    assert(crate::values::yaml_key_index(ie.drop_first(), YamlView::String("meta"@)) == Some(0int));
    crate::values::lemma_yaml_key_index(ie, YamlView::String("meta"@));
    crate::values::lemma_yaml_key_index(ie, YamlView::String("identity"@));
    assert(crate::values::yaml_get(idf, "meta"@) == Some(meta));
    assert(crate::values::yaml_get(idf, "identity"@) == Some(spec_json_to_yaml(p.identity)));
    crate::values::lemma_json_round_trip(p.identity);
    lemma_template_reads_back(p, p.router);
    lemma_template_reads_back(p, p.response);
}

proof fn lemma_template_reads_back(p: PromptSetView, t: TemplateView)
    ensures
        template_from(spec_json_to_yaml(template_file(p, t))) == t,
{
    reveal_strlit("meta");
    reveal_strlit("template");
    reveal_strlit("assembly");
    reveal_strlit("developer");
    reveal_strlit("system");
    assert("meta"@.len() == 4 && "template"@.len() == 8);
    assert("assembly"@.len() == 8 && "developer"@.len() == 9 && "system"@.len() == 6);
    let inner = template_file(p, t)->Object_0[1].1;
    let ie = inner->Object_0;
    assert(ie[0].0 != ie[1].0 && ie[0].0 != ie[2].0 && ie[1].0 != ie[2].0);
    crate::values::lemma_distinct_entries_to_yaml(ie);
    let ty = spec_json_to_yaml(inner);
    let te = ty->Mapping_0;
    assert(te.len() == 3);
    assert(te[0] == (YamlView::String("assembly"@), YamlView::String(t.assembly)));
    assert(te[1] == (YamlView::String("developer"@), YamlView::String(t.developer)));
    assert(te[2] == (YamlView::String("system"@), YamlView::String(t.system)));
    crate::values::lemma_yaml_key_index(te, YamlView::String("system"@));
    crate::values::lemma_yaml_key_index(te, YamlView::String("developer"@));
    crate::values::lemma_yaml_key_index(te, YamlView::String("assembly"@));
    assert(te.drop_first()[0] == te[1] && te.drop_first().drop_first()[0] == te[2]);
    assert(crate::values::yaml_key_index(te.drop_first(), YamlView::String("developer"@)) == Some(0int));
    assert(crate::values::yaml_key_index(te.drop_first().drop_first(), YamlView::String("system"@)) == Some(0int));
    assert(crate::values::yaml_key_index(te.drop_first(), YamlView::String("system"@)) == Some(1int));
    assert(crate::values::yaml_get(ty, "system"@) == Some(YamlView::String(t.system)));
    assert(crate::values::yaml_get(ty, "developer"@) == Some(YamlView::String(t.developer)));
    assert(crate::values::yaml_get(ty, "assembly"@) == Some(YamlView::String(t.assembly)));
    let fe = template_file(p, t)->Object_0;
    assert(fe[0].0 != fe[1].0);
    crate::values::lemma_distinct_entries_to_yaml(fe);
    let f = spec_json_to_yaml(template_file(p, t));
    let fm = f->Mapping_0;
    assert(fm.len() == 2 && fm[1] == (YamlView::String("template"@), ty));
    assert(fm[0].0 == YamlView::String("meta"@));
    assert(fm.drop_first()[0] == fm[1]);
    assert(crate::values::yaml_key_index(fm.drop_first(), YamlView::String("template"@)) == Some(0int));
    assert(crate::values::yaml_get(f, "template"@) == Some(ty));
}

/// The published prompt files are canonical JSON: their keys come in order.
proof fn lemma_prompt_files_canonical(p: PromptSetView, t: TemplateView)
    ensures
        json_canonical(prompt_meta(p)),
        json_canonical(template_file(p, t)),
        json_canonical(p.identity) ==> json_canonical(identity_file(p)),
{
    reveal_strlit("id");
    reveal_strlit("name");
    reveal_strlit("version");
    reveal_strlit("identity");
    reveal_strlit("meta");
    reveal_strlit("template");
    reveal_strlit("assembly");
    reveal_strlit("developer");
    reveal_strlit("system");
    assert(seq_less("id"@, "name"@) && seq_less("name"@, "version"@) && seq_less("id"@, "version"@));
    assert(seq_less("identity"@, "meta"@) && seq_less("meta"@, "template"@));
    assert(seq_less("assembly"@, "developer"@) && seq_less("developer"@, "system"@) && seq_less("assembly"@, "system"@));
    let me = prompt_meta(p)->Object_0;
    lemma_values_canonical(me);
    let inner = template_file(p, t)->Object_0[1].1;
    lemma_values_canonical(inner->Object_0);
    lemma_values_canonical(template_file(p, t)->Object_0);
    lemma_values_canonical(identity_file(p)->Object_0);
}

} // verus!
