//! Loaded prompt sets as the API reports them.

use vstd::prelude::*;
use vstd::string::StringExecFns;

use crate::dto::prompt::ReloadResponse;
use crate::errors::{ApiError, ApiErrorCode, STATUS_NOT_FOUND};

verus! {

/// The error for an unknown prompt set: not found (404), naming it.
pub fn prompt_set_not_found(set_id: &str) -> (e: ApiError)
    ensures
        e.code == ApiErrorCode::NotFound,
        e.status == STATUS_NOT_FOUND,
        e.message@ == "prompt set not found: "@ + set_id@,
{
    ApiError::not_found("prompt set not found: ".to_string().concat(set_id))
}

/// The answer to a reload of the prompt sets: how many are loaded now.
pub fn reload_response(sets_count: usize) -> (r: ReloadResponse)
    ensures
        r.status@ == "reloaded"@,
        r.sets_count == sets_count,
{
    ReloadResponse { status: "reloaded".to_string(), sets_count }
}

/// The template a preview renders: the response template's assembly when
/// asked for `response`, the router's otherwise.
pub fn preview_template(prompt: &crate::studio::types::DraftPromptSet, which: &str) -> (t: String)
    ensures
        t@ == (if which@ == "response"@ { prompt@.response.assembly } else { prompt@.router.assembly }),
{
    if crate::text::str_eq(which, "response") {
        prompt.response.assembly.clone()
    } else {
        prompt.router.assembly.clone()
    }
}

/// The values a preview fills the template with when the request gives none.
pub open spec fn default_preview_vars() -> Seq<(Seq<char>, Seq<char>)> {
    seq![
        ("identity"@, "Operator: Alex\nOrganization: Acme Insurance"@),
        ("history"@, "user: да, это я"@),
        ("search"@, "payment methods"@),
        ("flow"@, "payment"@),
        ("user_message"@, "как оплатить?"@),
        ("context_json"@, "{\"flow\":{\"node\":\"payment\"}}"@),
    ]
}

pub fn preview_vars_default() -> (r: Vec<(String, String)>)
    ensures
        r@.map_values(|p: (String, String)| (p.0@, p.1@)) == default_preview_vars(),
{
    let mut r: Vec<(String, String)> = Vec::new();
    r.push(("identity".to_string(), "Operator: Alex\nOrganization: Acme Insurance".to_string()));
    r.push(("history".to_string(), "user: да, это я".to_string()));
    r.push(("search".to_string(), "payment methods".to_string()));
    r.push(("flow".to_string(), "payment".to_string()));
    r.push(("user_message".to_string(), "как оплатить?".to_string()));
    r.push(("context_json".to_string(), "{\"flow\":{\"node\":\"payment\"}}".to_string()));
    assert(r@.map_values(|p: (String, String)| (p.0@, p.1@)) =~= default_preview_vars());
    r
}

} // verus!
