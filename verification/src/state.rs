//! The loaded flows the API serves, and the checks made while loading them.

use vstd::prelude::*;
use vstd::string::StringExecFns;

use crate::companies::{strings_view, CompaniesError};
use crate::errors::{ApiError, ApiErrorCode, STATUS_INTERNAL};
use crate::paths::{join, path_join};
use crate::sorting::{sort_strings, texts_sorted};
use crate::studio::types::opt_str_view;

verus! {

/// A flow the runtime loaded, and the file it came from.
pub struct FlowInfo {
    pub id: String,
    pub name: Option<String>,
    pub version: Option<String>,
    pub source_path: String,
}

pub struct FlowInfoView {
    pub id: Seq<char>,
    pub name: Option<Seq<char>>,
    pub version: Option<Seq<char>>,
    pub source_path: Seq<char>,
}

impl View for FlowInfo {
    type V = FlowInfoView;

    open spec fn view(&self) -> FlowInfoView {
        FlowInfoView {
            id: self.id@,
            name: opt_str_view(self.name),
            version: opt_str_view(self.version),
            source_path: self.source_path@,
        }
    }
}

pub open spec fn flows_view(s: Seq<FlowInfo>) -> Seq<FlowInfoView> {
    s.map_values(|f: FlowInfo| f@)
}

/// The loaded flows, in the order they were loaded.
pub struct FlowRegistry {
    flows: Vec<FlowInfo>,
}

impl View for FlowRegistry {
    type V = Seq<FlowInfoView>;

    closed spec fn view(&self) -> Seq<FlowInfoView> {
        flows_view(self.flows@)
    }
}

/// Whether a flow with the given id is among the flows.
pub open spec fn has_flow(flows: Seq<FlowInfoView>, id: Seq<char>) -> bool {
    exists|i: int| 0 <= i < flows.len() && #[trigger] flows[i].id == id
}

impl FlowRegistry {
    pub closed spec fn values(&self) -> Seq<FlowInfo> {
        self.flows@
    }

    pub fn new(flows: Vec<FlowInfo>) -> (r: FlowRegistry)
        ensures
            r.values() == flows@,
            r@ == flows_view(flows@),
    {
        FlowRegistry { flows }
    }

    /// Whether a flow with this id is loaded.
    pub fn contains(&self, flow_id: &str) -> (b: bool)
        ensures
            b == has_flow(self@, flow_id@),
    {
        let mut i: usize = 0;
        while i < self.flows.len()
            invariant
                i <= self.flows@.len(),
                self@ == flows_view(self.flows@),
                forall|j: int| 0 <= j < i ==> #[trigger] self.flows@[j].id@ != flow_id@,
            decreases self.flows@.len() - i,
        {
            if crate::text::str_eq(self.flows[i].id.as_str(), flow_id) {
                assert(self@[i as int].id == flow_id@);
                return true;
            }
            i = i + 1;
        }
        assert forall|j: int| 0 <= j < self@.len() implies #[trigger] self@[j].id != flow_id@ by {
            assert(self@[j] == self.flows@[j]@);
        }
        false
    }

    /// The loaded flows, in order.
    pub fn list(&self) -> (r: &[FlowInfo])
        ensures
            r@ == self.values(),
            flows_view(r@) == self@,
    {
        self.flows.as_slice()
    }

    /// Puts a freshly loaded set of flows in place of the current one.
    pub fn replace(&mut self, flows: Vec<FlowInfo>)
        ensures
            final(self).values() == flows@,
            final(self)@ == flows_view(flows@),
    {
        self.flows = flows;
    }
}

/// After the flows are replaced, a flow is loaded exactly when the new set has it.
pub proof fn law_replace_then_contains(flows: Seq<FlowInfo>, id: Seq<char>)
    ensures
        has_flow(flows_view(flows), id) <==> exists|i: int| 0 <= i < flows.len() && #[trigger] flows[i].id@ == id,
{
    if has_flow(flows_view(flows), id) {
        let i = choose|i: int| 0 <= i < flows_view(flows).len() && #[trigger] flows_view(flows)[i].id == id;
        assert(flows[i].id@ == id);
    }
    if exists|i: int| 0 <= i < flows.len() && #[trigger] flows[i].id@ == id {
        let i = choose|i: int| 0 <= i < flows.len() && #[trigger] flows[i].id@ == id;
        assert(flows_view(flows)[i].id == id);
    }
}

/// The name of a flow file: something, then `.yaml`.
pub open spec fn is_yaml_name(name: Seq<char>) -> bool {
    name.len() > 5 && name.subrange(name.len() - 5, name.len() as int) == ".yaml"@
}

pub fn is_yaml_file_name(name: &str) -> (b: bool)
    ensures
        b == is_yaml_name(name@),
{
    let n = name.unicode_len();
    if n <= 5 {
        return false;
    }
    let chars = crate::text::chars_of(name);
    let suffix = crate::text::string_from_chars(&chars, n - 5, n);
    crate::text::str_eq(suffix.as_str(), ".yaml")
}

/// The paths of the flow files among the names listed in the flows
/// directory, in order of name; an error when there is none.
pub fn flow_files(flows_dir: &str, names: &Vec<String>) -> (r: Result<Vec<String>, ApiError>)
    ensures
        match r {
            Ok(paths) => paths@.len() > 0 && texts_sorted(strings_view(paths@))
                && strings_view(paths@).to_multiset() == strings_view(names@)
                    .filter(|n: Seq<char>| is_yaml_name(n))
                    .map_values(|n: Seq<char>| path_join(flows_dir@, n))
                    .to_multiset(),
            Err(e) => e.code == ApiErrorCode::InternalError && e.status == STATUS_INTERNAL
                && e.message@ == "no flow yaml files in "@ + flows_dir@
                && strings_view(names@).filter(|n: Seq<char>| is_yaml_name(n)).len() == 0,
        },
{
    let ghost pred = |n: Seq<char>| is_yaml_name(n);
    let ghost f = |n: Seq<char>| path_join(flows_dir@, n);
    let ghost nv = strings_view(names@);
    let mut paths: Vec<String> = Vec::new();
    assert(strings_view(paths@) =~= nv.take(0).filter(pred).map_values(f));
    let mut i: usize = 0;
    while i < names.len()
        invariant
            i <= names@.len(),
            nv == strings_view(names@),
            pred == (|n: Seq<char>| is_yaml_name(n)),
            f == (|n: Seq<char>| path_join(flows_dir@, n)),
            strings_view(paths@) == nv.take(i as int).filter(pred).map_values(f),
        decreases names@.len() - i,
    {
        proof {
            nv.take(i as int).lemma_filter_push(nv[i as int], pred);
            assert(nv.take(i + 1) == nv.take(i as int).push(nv[i as int]));
        }
        let ghost before = paths@;
        if is_yaml_file_name(names[i].as_str()) {
            let p = join(flows_dir, names[i].as_str());
            paths.push(p);
            assert(strings_view(paths@) =~= strings_view(before).push(f(nv[i as int])));
            assert(nv.take(i + 1).filter(pred).map_values(f) =~= nv.take(i as int).filter(pred).map_values(f).push(f(nv[i as int])));
        }
        i = i + 1;
    }
    assert(nv.take(names@.len() as int) == nv);
    if paths.len() == 0 {
        let m = "no flow yaml files in ".to_string().concat(flows_dir);
        return Err(ApiError::internal(m));
    }
    let ghost unsorted = paths@;
    let sorted = sort_strings(paths);
    proof {
        vstd::seq_lib::to_multiset_len(strings_view(sorted@));
        vstd::seq_lib::to_multiset_len(strings_view(unsorted));
    }
    Ok(sorted)
}

/// The record of a flow the runtime loaded from `path`, once its id is
/// checked against the id its file declares.
pub fn loaded_flow(declared_id: &str, loaded_id: String, name: Option<String>, version: Option<String>, path: String) -> (r: Result<FlowInfo, ApiError>)
    ensures
        declared_id@ == loaded_id@ ==> (r matches Ok(info) && info@ == (FlowInfoView {
            id: loaded_id@,
            name: opt_str_view(name),
            version: opt_str_view(version),
            source_path: path@,
        })),
        declared_id@ != loaded_id@ ==> (r matches Err(e) && e.code == ApiErrorCode::InternalError
            && e.status == STATUS_INTERNAL
            && e.message@ == "flow id mismatch: yaml id="@ + declared_id@ + " loaded="@ + loaded_id@),
{
    if !crate::text::str_eq(declared_id, loaded_id.as_str()) {
        let mut m = "flow id mismatch: yaml id=".to_string();
        m.append(declared_id);
        m.append(" loaded=");
        m.append(loaded_id.as_str());
        return Err(ApiError::internal(m));
    }
    Ok(FlowInfo { id: loaded_id, name, version, source_path: path })
}

/// The error when the flows directory does not exist.
pub fn flows_dir_missing(flows_dir: &str) -> (e: ApiError)
    ensures
        e.code == ApiErrorCode::InternalError && e.status == STATUS_INTERNAL
            && e.message@ == "flows directory not found: "@ + flows_dir@,
{
    ApiError::internal("flows directory not found: ".to_string().concat(flows_dir))
}

/// The error when the companies registry cannot be loaded at startup: an
/// internal error with the registry error's own message.
pub fn companies_unavailable(e: CompaniesError) -> (r: ApiError)
    ensures
        r.code == ApiErrorCode::InternalError && r.status == STATUS_INTERNAL,
        match e {
            CompaniesError::NotFound(m) => r.message@ == m@,
            CompaniesError::Invalid(m) => r.message@ == m@,
        },
{
    match e {
        CompaniesError::NotFound(m) => ApiError::internal(m),
        CompaniesError::Invalid(m) => ApiError::internal(m),
    }
}

} // verus!
