//! Where a project's draft is bootstrapped from: the bundled prompt files
//! and the errors met on the way. The draft's company, flows, prompts and
//! knowledge are made by the conversions of `convert` and `store`.

use vstd::prelude::*;
use vstd::string::StringExecFns;

use crate::paths::{join, path_join};

verus! {

/// The directory prompt sets are read from: the bundled root's `prompts`
/// subdirectory when it has one, else the root itself.
pub fn prompts_load_root(bundled_root: &str, has_prompts_dir: bool) -> (r: String)
    ensures
        r@ == (if has_prompts_dir { path_join(bundled_root@, "prompts"@) } else { bundled_root@ }),
{
    if has_prompts_dir {
        join(bundled_root, "prompts")
    } else {
        bundled_root.to_string()
    }
}

/// The three files of a prompt set: `identity.yaml`, `router.yaml` and
/// `response.yaml` in its directory.
pub fn prompt_set_files(prompts_root: &str, set_id: &str) -> (r: (String, String, String))
    ensures
        r.0@ == path_join(path_join(prompts_root@, set_id@), "identity.yaml"@),
        r.1@ == path_join(path_join(prompts_root@, set_id@), "router.yaml"@),
        r.2@ == path_join(path_join(prompts_root@, set_id@), "response.yaml"@),
{
    let dir = join(prompts_root, set_id);
    (join(dir.as_str(), "identity.yaml"), join(dir.as_str(), "router.yaml"), join(dir.as_str(), "response.yaml"))
}

/// The error of a flow the runtime could not export while bootstrapping.
pub fn export_failed(flow_id: &str, reason: &str) -> (m: String)
    ensures
        m@ == "export flow "@ + flow_id@ + ": "@ + reason@,
{
    let mut m = "export flow ".to_string();
    m.append(flow_id);
    m.append(": ");
    m.append(reason);
    m
}

} // verus!
