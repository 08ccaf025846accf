//! Request ids: each request carries one, from its `x-request-id` header or
//! a fresh one, and so does its response.

use vstd::prelude::*;
use vstd::string::StringExecFns;

verus! {

/// The header that carries a request's id.
pub const REQUEST_ID_HEADER: &'static str = "x-request-id";

/// The id of a request.
pub struct RequestId(pub String);

/// The id a request gets: the one its header carries, or `fresh` (a new UUID).
pub fn request_id_or(header: Option<&str>, fresh: String) -> (r: RequestId)
    ensures
        r.0@ == match header {
            Some(h) => h@,
            None => fresh@,
        },
{
    match header {
        Some(h) => RequestId(h.to_string()),
        None => RequestId(fresh),
    }
}

/// The id a request's log lines name before one is assigned.
pub fn request_id_for_log(header: Option<&str>) -> (r: String)
    ensures
        r@ == match header {
            Some(h) => h@,
            None => "pending"@,
        },
{
    match header {
        Some(h) => h.to_string(),
        None => "pending".to_string(),
    }
}

/// The log filter for a log level: the API at that level, the HTTP layer at `info`.
pub fn tracing_filter(log_level: &str) -> (f: String)
    ensures
        f@ == "ai_api="@ + log_level@ + ",tower_http=info"@,
{
    let mut f = "ai_api=".to_string();
    f.append(log_level);
    f.append(",tower_http=info");
    f
}

} // verus!
