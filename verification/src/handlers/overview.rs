//! The dashboard overview: the state of each platform component, the
//! language-model settings, and the effective configuration.

use vstd::prelude::*;
use vstd::string::StringExecFns;

use crate::companies::strings_view;
use crate::config::{ApiConfig, DefaultModuleConfig};
use crate::dto::overview::{GeminiStatusDto, PlatformComponentStatus, PlatformConfigResponse};
use crate::state::{flows_view, FlowInfo};
use crate::text::{decimal, trim, trim_str};

verus! {

/// The model used when none is configured.
pub open spec fn default_model() -> Seq<char> {
    "gemini-2.5-flash"@
}

/// The language model's status: `enabled` when the API was built with it,
/// configured when its key is set and not blank; the two models as set, or
/// the default one.
pub fn gemini_status(enabled: bool, api_key: Option<&str>, model_router: Option<String>, model_response: Option<String>) -> (g: GeminiStatusDto)
    ensures
        g.enabled == enabled,
        g.configured == (match api_key {
            Some(k) => trim(k@).len() > 0,
            None => false,
        }),
        g.model_router@ == (match model_router {
            Some(m) => m@,
            None => default_model(),
        }),
        g.model_response@ == (match model_response {
            Some(m) => m@,
            None => default_model(),
        }),
{
    let configured = match api_key {
        Some(k) => {
            let t = trim_str(k);
            t.unicode_len() > 0
        },
        None => false,
    };
    let model_router = match model_router {
        Some(m) => m,
        None => "gemini-2.5-flash".to_string(),
    };
    let model_response = match model_response {
        Some(m) => m,
        None => "gemini-2.5-flash".to_string(),
    };
    GeminiStatusDto { enabled, configured, model_router, model_response }
}

pub struct ComponentView {
    pub id: Seq<char>,
    pub name: Seq<char>,
    pub status: Seq<char>,
}

pub open spec fn component_view(c: PlatformComponentStatus) -> ComponentView {
    ComponentView { id: c.id@, name: c.name@, status: c.status@ }
}

pub open spec fn ok_or(ok: bool, otherwise: Seq<char>) -> Seq<char> {
    if ok { "ok"@ } else { otherwise }
}

/// The language model's state: `ok` when enabled and configured,
/// `not_configured` when enabled without a key, `mock` otherwise.
pub open spec fn gemini_state(enabled: bool, configured: bool) -> Seq<char> {
    if enabled && configured {
        "ok"@
    } else if enabled {
        "not_configured"@
    } else {
        "mock"@
    }
}

/// The platform's components and their state, in the order the dashboard shows them.
pub open spec fn components(prompts_loaded: bool, flows_loaded: bool, gemini: (bool, bool)) -> Seq<ComponentView> {
    seq![
        ComponentView { id: "runtime"@, name: "Runtime"@, status: "ok"@ },
        ComponentView { id: "prompt_registry"@, name: "Prompt Registry"@, status: ok_or(prompts_loaded, "degraded"@) },
        ComponentView { id: "flow_registry"@, name: "Flow Registry"@, status: ok_or(flows_loaded, "degraded"@) },
        ComponentView { id: "gemini"@, name: "Gemini"@, status: gemini_state(gemini.0, gemini.1) },
        ComponentView { id: "http_api"@, name: "HTTP API"@, status: "ok"@ },
        ComponentView { id: "search"@, name: "Search"@, status: "ok"@ },
        ComponentView { id: "modules"@, name: "Modules"@, status: "ok"@ },
        ComponentView { id: "evaluation"@, name: "Evaluation"@, status: "ok"@ },
    ]
}

fn component(id: &str, name: &str, status: &str) -> (c: PlatformComponentStatus)
    ensures
        component_view(c) == (ComponentView { id: id@, name: name@, status: status@ }),
        c.detail is None,
{
    PlatformComponentStatus { id: id.to_string(), name: name.to_string(), status: status.to_string(), detail: None }
}

/// The state of each platform component: the prompt registry is degraded
/// without prompt sets, the flow registry without flows.
pub fn platform_components(prompts_loaded: bool, flows_loaded: bool, gemini: &GeminiStatusDto) -> (r: Vec<PlatformComponentStatus>)
    ensures
        r@.map_values(|c: PlatformComponentStatus| component_view(c)) == components(prompts_loaded, flows_loaded, (gemini.enabled, gemini.configured)),
        forall|i: int| 0 <= i < r@.len() ==> (#[trigger] r@[i]).detail is None,
{
    let gemini_status = if gemini.enabled && gemini.configured {
        "ok"
    } else if gemini.enabled {
        "not_configured"
    } else {
        "mock"
    };
    let mut r: Vec<PlatformComponentStatus> = Vec::new();
    r.push(component("runtime", "Runtime", "ok"));
    r.push(component("prompt_registry", "Prompt Registry", if prompts_loaded { "ok" } else { "degraded" }));
    r.push(component("flow_registry", "Flow Registry", if flows_loaded { "ok" } else { "degraded" }));
    r.push(component("gemini", "Gemini", gemini_status));
    r.push(component("http_api", "HTTP API", "ok"));
    r.push(component("search", "Search", "ok"));
    r.push(component("modules", "Modules", "ok"));
    r.push(component("evaluation", "Evaluation", "ok"));
    assert(r@.map_values(|c: PlatformComponentStatus| component_view(c)) =~= components(prompts_loaded, flows_loaded, (gemini.enabled, gemini.configured)));
    r
}

/// Where the API listens, as a URL hint: `http://<host>:<port>`.
pub open spec fn url_hint(host: Seq<char>, port: u16) -> Seq<char> {
    "http://"@ + host + ":"@ + decimal(port as nat)
}

/// A default module as the configuration lists it: `<id>:<path>`.
pub open spec fn module_entry(m: DefaultModuleConfig) -> Seq<char> {
    m.module_id@ + ":"@ + m.path@
}

/// The effective configuration, with the prompt sets the runtime loaded.
pub fn platform_config(
    config: &ApiConfig,
    default_prompt_set: String,
    loaded_prompt_sets: Vec<String>,
    flows: &[FlowInfo],
    gemini: GeminiStatusDto,
) -> (r: PlatformConfigResponse)
    ensures
        r.api_url_hint@ == url_hint(config.host@, config.port),
        r.data_root@ == config.data_root@,
        r.flows_dir@ == config.flows_dir@,
        r.request_timeout_secs == config.request_timeout,
        r.max_body_size == config.max_body_size,
        r.default_prompt_set@ == default_prompt_set@,
        r.loaded_flows@.map_values(|s: String| s@) == flows_view(flows@).map_values(|f: crate::state::FlowInfoView| f.id),
        r.loaded_prompt_sets@ == loaded_prompt_sets@,
        strings_view(r.default_modules@) == config.default_modules@.map_values(|m: DefaultModuleConfig| module_entry(m)),
        r.gemini_model_router@ == gemini.model_router@,
        r.gemini_model_response@ == gemini.model_response@,
        r.include_router_decision == config.include_router_decision,
{
    let mut hint = "http://".to_string();
    hint.append(config.host.as_str());
    hint.append(":");
    let port = crate::text::u64_to_decimal(config.port as u64);
    hint.append(port.as_str());
    let mut loaded_flows: Vec<String> = Vec::new();
    let mut i: usize = 0;
    while i < flows.len()
        invariant
            i <= flows@.len(),
            loaded_flows@.len() == i,
            forall|j: int| 0 <= j < i ==> #[trigger] loaded_flows@[j]@ == flows@[j].id@,
        decreases flows@.len() - i,
    {
        loaded_flows.push(flows[i].id.clone());
        i = i + 1;
    }
    assert(loaded_flows@.map_values(|s: String| s@) =~= flows_view(flows@).map_values(|f: crate::state::FlowInfoView| f.id));
    let mut modules: Vec<String> = Vec::new();
    let mut k: usize = 0;
    while k < config.default_modules.len()
        invariant
            k <= config.default_modules@.len(),
            modules@.len() == k,
            forall|j: int| 0 <= j < k ==> #[trigger] modules@[j]@ == module_entry(config.default_modules@[j]),
        decreases config.default_modules@.len() - k,
    {
        let m = &config.default_modules[k];
        let mut e = m.module_id.clone();
        e.append(":");
        e.append(m.path.as_str());
        modules.push(e);
        k = k + 1;
    }
    assert(strings_view(modules@) =~= config.default_modules@.map_values(|m: DefaultModuleConfig| module_entry(m)));
    PlatformConfigResponse {
        api_url_hint: hint,
        data_root: config.data_root.clone(),
        flows_dir: config.flows_dir.clone(),
        request_timeout_secs: config.request_timeout,
        max_body_size: config.max_body_size,
        default_prompt_set,
        loaded_flows,
        loaded_prompt_sets,
        default_modules: modules,
        gemini_model_router: gemini.model_router,
        gemini_model_response: gemini.model_response,
        include_router_decision: config.include_router_decision,
    }
}

} // verus!
