//! The studio's edits of a project: creating, updating and deleting it, its
//! knowledge documents, flows, prompt sets and published versions.

use vstd::prelude::*;
use vstd::string::StringExecFns;

use crate::companies::{clone_strings, index_of_id, spec_remove, strings_view, CompaniesRegistry, CompanyEntryView};
use crate::config::DefaultModuleConfig;
use crate::dto::studio::{
    CreateFlowRequest, CreateProjectRequest, ProjectAssetsResponse, ProjectStatusResponse,
    StudioProjectDetailResponse, StudioProjectDto, UpdateCompanyRequest, UpdateProjectRequest,
    UpdatePromptRequest, UpsertDocumentRequest, VersionDto, VersionsResponse,
};
use crate::errors::{ApiError, ApiErrorCode, STATUS_BAD_REQUEST};
use crate::float_bits::{f64_bits, f64_bits_of};
use crate::studio::mappers::{company_to_dto, template_from_dto};
use crate::studio::store::StudioStore;
use crate::studio::types::{
    clone_opt_str, opt_str_view, CompanyView, DocumentView, DraftCompany, DraftFlow, DraftFlowNode,
    DraftFlowTransition, DraftKnowledge, DraftManifest, DraftPromptSet, KnowledgeDocument,
    NodePosition, VersionManifest,
};
use crate::text::{trim, trim_str};
use crate::values::{empty_object, new_empty_object, JsonValue, JsonView};

verus! {

/// A rejected request (400) with the given message.
pub open spec fn rejects(r: ApiError, message: Seq<char>) -> bool {
    r.code == ApiErrorCode::InvalidRequest && r.status == STATUS_BAD_REQUEST && r.message@ == message
}

fn reject(message: &str) -> (e: ApiError)
    ensures
        rejects(e, message@),
{
    ApiError::invalid_request(message.to_string())
}

/// The error for a project that is not in the registry.
pub fn project_not_found(project_id: &str) -> (e: ApiError)
    ensures
        rejects(e, "project not found: "@ + project_id@),
{
    ApiError::invalid_request("project not found: ".to_string().concat(project_id))
}

/// The knowledge source a new project gets when none is given.
pub open spec fn default_knowledge_source(id: Seq<char>) -> Seq<char> {
    "company/"@ + id + ".yaml"@
}

/// The company of a project being created: the request's fields, with the
/// prompt set defaulting to the id, the knowledge source to
/// `company/<id>.yaml` and the flows to none. An id that is blank is refused.
pub fn new_project_company(req: &CreateProjectRequest) -> (r: Result<DraftCompany, ApiError>)
    ensures
        trim(req.id@).len() == 0 ==> (r matches Err(e) && rejects(e, "id must not be empty"@)),
        trim(req.id@).len() != 0 ==> (r matches Ok(c) && c@ == (CompanyView {
            id: req.id@,
            name: req.name@,
            description: opt_str_view(req.description),
            prompt_set: match req.prompt_set {
                Some(p) => p@,
                None => req.id@,
            },
            knowledge_source: match req.knowledge_source {
                Some(k) => k@,
                None => default_knowledge_source(req.id@),
            },
            flows: match req.flows {
                Some(f) => strings_view(f@),
                None => Seq::empty(),
            },
        })),
{
    let trimmed = trim_str(req.id.as_str());
    if trimmed.unicode_len() == 0 {
        return Err(reject("id must not be empty"));
    }
    let prompt_set = match &req.prompt_set {
        Some(p) => p.clone(),
        None => req.id.clone(),
    };
    let knowledge_source = match &req.knowledge_source {
        Some(k) => k.clone(),
        None => {
            let mut k = "company/".to_string();
            k.append(req.id.as_str());
            k.append(".yaml");
            k
        },
    };
    let flows = match &req.flows {
        Some(f) => clone_strings(f),
        None => {
            let v: Vec<String> = Vec::new();
            assert(strings_view(v@) =~= Seq::<Seq<char>>::empty());
            v
        },
    };
    Ok(DraftCompany {
        id: req.id.clone(),
        name: req.name.clone(),
        description: clone_opt_str(&req.description),
        prompt_set,
        knowledge_source,
        flows,
    })
}

/// Adds a new project's company to the registry; one that is there already is refused.
pub fn register_project(registry: &mut CompaniesRegistry, company: &DraftCompany) -> (r: Result<(), ApiError>)
    ensures
        index_of_id(old(registry)@.entries, company@.id) is Some ==> (r matches Err(e)
            && rejects(e, "project already exists"@) && final(registry)@ == old(registry)@),
        index_of_id(old(registry)@.entries, company@.id) is None ==> (r is Ok
            && final(registry)@.entries == old(registry)@.entries.push(CompanyEntryView {
                id: company@.id,
                name: company@.name,
                prompt_set: company@.prompt_set,
                knowledge_source: company@.knowledge_source,
                flows: company@.flows,
            })
            && final(registry)@.path == old(registry)@.path),
{
    if registry.contains(company.id.as_str()) {
        return Err(reject("project already exists"));
    }
    let entry = StudioStore::registry_entry_from_company(company);
    registry.upsert(entry);
    Ok(())
}

/// Removes a project from the registry; an unknown one is refused.
pub fn unregister_project(registry: &mut CompaniesRegistry, project_id: &str) -> (r: Result<(), ApiError>)
    ensures
        index_of_id(old(registry)@.entries, project_id@) is None ==> (r matches Err(e)
            && rejects(e, "project not found: "@ + project_id@) && final(registry)@ == old(registry)@),
        index_of_id(old(registry)@.entries, project_id@) is Some ==> (r is Ok
            && final(registry)@.entries == spec_remove(old(registry)@.entries, project_id@)
            && final(registry)@.path == old(registry)@.path),
{
    if !registry.contains(project_id) {
        return Err(project_not_found(project_id));
    }
    registry.remove(project_id);
    Ok(())
}

/// Applies an update of a project's name and description. A blank name is
/// refused and leaves the company as it was.
pub fn apply_project_update(company: &mut DraftCompany, req: UpdateProjectRequest) -> (r: Result<(), ApiError>)
    ensures
        (match req.name {
            Some(n) => trim(n@).len() == 0,
            None => false,
        }) ==> (r matches Err(e) && rejects(e, "name must not be empty"@) && final(company)@ == old(company)@),
        !(match req.name {
            Some(n) => trim(n@).len() == 0,
            None => false,
        }) ==> (r is Ok && final(company)@ == (CompanyView {
            name: match req.name {
                Some(n) => n@,
                None => old(company)@.name,
            },
            description: match req.description {
                Some(d) => Some(d@),
                None => old(company)@.description,
            },
            ..old(company)@
        })),
{
    match req.name {
        Some(name) => {
            let t = trim_str(name.as_str());
            if t.unicode_len() == 0 {
                return Err(reject("name must not be empty"));
            }
            company.name = name;
        },
        None => {},
    }
    if req.description.is_some() {
        company.description = req.description;
    }
    Ok(())
}

/// A project's detail: its draft company and the state of its draft.
pub fn project_detail(company: DraftCompany, manifest: DraftManifest) -> (r: StudioProjectDetailResponse)
    ensures
        r.id@ == company@.id,
        r.name@ == company@.name,
        opt_str_view(r.description) == company@.description,
        r.prompt_set@ == company@.prompt_set,
        r.knowledge_source@ == company@.knowledge_source,
        strings_view(r.flows@) == company@.flows,
        r.dirty == manifest@.dirty,
        r.published_version == manifest@.published_version,
        opt_str_view(r.edited_at) == manifest@.edited_at,
        opt_str_view(r.bootstrapped_at) == manifest@.bootstrapped_at,
{
    StudioProjectDetailResponse {
        id: company.id,
        name: company.name,
        description: company.description,
        prompt_set: company.prompt_set,
        knowledge_source: company.knowledge_source,
        flows: company.flows,
        dirty: manifest.dirty,
        published_version: manifest.published_version,
        edited_at: manifest.edited_at,
        bootstrapped_at: manifest.bootstrapped_at,
    }
}

/// A project in the list: from its draft's manifest when it has a draft
/// (`manifest` is `Some`), else clean at its latest published version.
pub fn project_summary(id: &str, name: &str, manifest: Option<DraftManifest>, latest_version: u32) -> (r: StudioProjectDto)
    ensures
        r.id@ == id@,
        r.name@ == name@,
        r.description is None,
        match manifest {
            Some(m) => r.dirty == m@.dirty && r.published_version == m@.published_version
                && opt_str_view(r.edited_at) == m@.edited_at,
            None => !r.dirty && r.published_version == latest_version && r.edited_at is None,
        },
{
    match manifest {
        Some(m) => StudioProjectDto {
            id: id.to_string(),
            name: name.to_string(),
            description: None,
            dirty: m.dirty,
            published_version: m.published_version,
            edited_at: m.edited_at,
        },
        None => StudioProjectDto {
            id: id.to_string(),
            name: name.to_string(),
            description: None,
            dirty: false,
            published_version: latest_version,
            edited_at: None,
        },
    }
}

/// The status of a project's draft. `manifest` is the draft's manifest
/// (fresh when the draft has none); without a draft the published version is
/// the latest one in the versions directory.
pub fn project_status(project_id: String, draft_exists: bool, manifest: DraftManifest, latest_version: u32) -> (r: ProjectStatusResponse)
    ensures
        r.project_id@ == project_id@,
        r.dirty == manifest@.dirty,
        r.published_version == (if draft_exists { manifest@.published_version } else { latest_version }),
        opt_str_view(r.edited_at) == manifest@.edited_at,
        opt_str_view(r.bootstrapped_at) == manifest@.bootstrapped_at,
        r.draft_exists == draft_exists,
{
    ProjectStatusResponse {
        project_id,
        dirty: manifest.dirty,
        published_version: if draft_exists { manifest.published_version } else { latest_version },
        edited_at: manifest.edited_at,
        bootstrapped_at: manifest.bootstrapped_at,
        draft_exists,
    }
}

/// The module ids of the default modules, in order.
pub fn module_ids(modules: &Vec<DefaultModuleConfig>) -> (r: Vec<String>)
    ensures
        strings_view(r@) == modules@.map_values(|m: DefaultModuleConfig| m.module_id@),
{
    let mut r: Vec<String> = Vec::new();
    let mut i: usize = 0;
    while i < modules.len()
        invariant
            i <= modules@.len(),
            r@.len() == i,
            forall|j: int| 0 <= j < i ==> #[trigger] r@[j]@ == modules@[j].module_id@,
        decreases modules@.len() - i,
    {
        r.push(modules[i].module_id.clone());
        i = i + 1;
    }
    assert(strings_view(r@) =~= modules@.map_values(|m: DefaultModuleConfig| m.module_id@));
    r
}

/// What a project's draft holds: its company, the ids of its flows, prompt
/// sets and clients, how many knowledge documents and categories it has, and
/// the default modules.
pub fn project_assets(
    project_id: String,
    company: &DraftCompany,
    flows: Vec<String>,
    prompt_sets: Vec<String>,
    clients: Vec<String>,
    knowledge: &DraftKnowledge,
    modules: &Vec<DefaultModuleConfig>,
) -> (r: ProjectAssetsResponse)
    ensures
        r.project_id@ == project_id@,
        r.company@ == company@,
        r.flows@ == flows@,
        r.prompt_sets@ == prompt_sets@,
        r.clients@ == clients@,
        r.knowledge_documents == knowledge.documents@.len(),
        r.knowledge_categories == knowledge.categories@.len(),
        strings_view(r.modules@) == modules@.map_values(|m: DefaultModuleConfig| m.module_id@),
{
    ProjectAssetsResponse {
        project_id,
        company: company_to_dto(company),
        flows,
        prompt_sets,
        clients,
        knowledge_documents: knowledge.documents.len(),
        knowledge_categories: knowledge.categories.len(),
        modules: module_ids(modules),
    }
}

/// The company a full update of a project's company writes.
pub fn company_from_update(req: UpdateCompanyRequest) -> (c: DraftCompany)
    ensures
        c@ == (CompanyView {
            id: req.id@,
            name: req.name@,
            description: opt_str_view(req.description),
            prompt_set: req.prompt_set@,
            knowledge_source: req.knowledge_source@,
            flows: strings_view(req.flows@),
        }),
{
    DraftCompany {
        id: req.id,
        name: req.name,
        description: req.description,
        prompt_set: req.prompt_set,
        knowledge_source: req.knowledge_source,
        flows: req.flows,
    }
}

/// The position of the first document with the given id.
pub open spec fn doc_index(docs: Seq<DocumentView>, id: Seq<char>) -> Option<int>
    decreases docs.len(),
{
    if docs.len() == 0 {
        None
    } else if docs[0].id == id {
        Some(0)
    } else {
        match doc_index(docs.drop_first(), id) {
            Some(i) => Some(i + 1),
            None => None,
        }
    }
}

pub proof fn lemma_doc_index(docs: Seq<DocumentView>, id: Seq<char>)
    ensures
        match doc_index(docs, id) {
            Some(i) => 0 <= i < docs.len() && docs[i].id == id
                && forall|j: int| 0 <= j < i ==> #[trigger] docs[j].id != id,
            None => forall|j: int| 0 <= j < docs.len() ==> #[trigger] docs[j].id != id,
        },
    decreases docs.len(),
{
    if docs.len() > 0 {
        lemma_doc_index(docs.drop_first(), id);
        assert forall|j: int| 1 <= j < docs.len() implies #[trigger] docs[j] == docs.drop_first()[j - 1] by {}
    }
}

/// The documents after `doc` is stored: in place of the first one with its
/// id, or at the end.
pub open spec fn spec_upsert_doc(docs: Seq<DocumentView>, doc: DocumentView) -> Seq<DocumentView> {
    match doc_index(docs, doc.id) {
        Some(i) => docs.update(i, doc),
        None => docs.push(doc),
    }
}

/// The document an upsert request stores: its id, or `fresh_id` when it
/// has none; its metadata, or the empty object.
pub open spec fn requested_document(req: UpsertDocumentRequest, fresh_id: Seq<char>) -> DocumentView {
    DocumentView {
        id: match req.id {
            Some(i) => i@,
            None => fresh_id,
        },
        category_id: req.category_id@,
        title: req.title@,
        section: req.section@,
        content: req.content@,
        metadata: match req.metadata {
            Some(m) => m@,
            None => empty_object(),
        },
    }
}

/// Stores the document an upsert request describes. `fresh_id` is the id a
/// document without one gets (a new UUID).
#[verifier::loop_isolation(false)]
pub fn upsert_document(knowledge: &mut DraftKnowledge, req: UpsertDocumentRequest, fresh_id: String)
    ensures
        final(knowledge)@.documents == spec_upsert_doc(old(knowledge)@.documents, requested_document(req, fresh_id@)),
        final(knowledge)@.categories == old(knowledge)@.categories,
        doc_index(final(knowledge)@.documents, match req.id {
            Some(x) => x@,
            None => fresh_id@,
        }) matches Some(i) && stores_request(final(knowledge)@.documents[i], req, fresh_id@),
        forall|j: int| 0 <= j < old(knowledge)@.documents.len() && old(knowledge)@.documents[j].id != (match req.id {
            Some(x) => x@,
            None => fresh_id@,
        }) ==> #[trigger] final(knowledge)@.documents[j] == old(knowledge)@.documents[j],
{
    proof {
        law_upsert_request(knowledge@.documents, req, fresh_id@);
    }
    let ghost want = requested_document(req, fresh_id@);
    let id = match req.id {
        Some(i) => i,
        None => fresh_id,
    };
    let metadata = match req.metadata {
        Some(m) => m,
        None => new_empty_object(),
    };
    let doc = KnowledgeDocument {
        id,
        category_id: req.category_id,
        title: req.title,
        section: req.section,
        content: req.content,
        metadata,
    };
    assert(doc@ == want);
    let ghost docs = knowledge@.documents;
    let ghost cats = knowledge@.categories;
    proof { lemma_doc_index(docs, doc@.id); }
    let mut i: usize = 0;
    while i < knowledge.documents.len()
        invariant
            i <= knowledge.documents@.len(),
            docs == knowledge@.documents,
            cats == knowledge@.categories,
            doc@ == want,
            docs.len() == knowledge.documents@.len(),
            forall|j: int| 0 <= j < i ==> #[trigger] docs[j].id != doc@.id,
        decreases knowledge.documents@.len() - i,
    {
        assert(docs[i as int] == knowledge.documents@[i as int]@);
        if crate::text::str_eq(knowledge.documents[i].id.as_str(), doc.id.as_str()) {
            assert(docs[i as int].id == doc@.id);
            assert(doc_index(docs, doc@.id) == Some(i as int)) by {
                lemma_doc_index(docs, doc@.id);
                match doc_index(docs, doc@.id) {
                    Some(k) => {
                        if k < i {
                            assert(docs[k].id != doc@.id);
                        }
                    },
                    None => {
                        assert(docs[i as int].id != doc@.id);
                    },
                }
            }
            let ghost dv = doc@;
            knowledge.documents.set(i, doc);
            assert(knowledge@.documents =~= docs.update(i as int, dv));
            return;
        }
        i = i + 1;
    }
    assert(doc_index(docs, doc@.id) is None) by {
        lemma_doc_index(docs, doc@.id);
    }
    let ghost dv = doc@;
    knowledge.documents.push(doc);
    assert(knowledge@.documents =~= docs.push(dv));
}

/// The documents without those that have the given id, in order.
pub open spec fn without_doc(docs: Seq<DocumentView>, id: Seq<char>) -> Seq<DocumentView> {
    docs.filter(|d: DocumentView| d.id != id)
}

/// Removes every document with the given id, keeping the order of the others.
pub fn delete_document(knowledge: &mut DraftKnowledge, doc_id: &str)
    ensures
        final(knowledge)@.documents == without_doc(old(knowledge)@.documents, doc_id@),
        final(knowledge)@.categories == old(knowledge)@.categories,
{
    let ghost pred = |d: DocumentView| d.id != doc_id@;
    let ghost s = knowledge@.documents;
    let mut old_docs: Vec<KnowledgeDocument> = Vec::new();
    std::mem::swap(&mut old_docs, &mut knowledge.documents);
    let n = old_docs.len();
    let ghost sv = old_docs@;
    assert(sv.map_values(|d: KnowledgeDocument| d@) == s);
    let mut rest = old_docs;
    let mut kept: Vec<KnowledgeDocument> = Vec::new();
    assert(kept@.map_values(|d: KnowledgeDocument| d@) =~= s.take(0).filter(pred));
    let mut i: usize = 0;
    while i < n
        invariant
            n == s.len(),
            pred == (|d: DocumentView| d.id != doc_id@),
            sv.len() == n,
            sv.map_values(|d: KnowledgeDocument| d@) == s,
            i <= n,
            rest@ == sv.subrange(i as int, n as int),
            kept@.map_values(|d: KnowledgeDocument| d@) == s.take(i as int).filter(pred),
        decreases n - i,
    {
        let d = rest.remove(0);
        assert(d == sv[i as int]);
        assert(d@ == s[i as int]);
        assert(rest@ =~= sv.subrange(i + 1, n as int));
        proof {
            s.take(i as int).lemma_filter_push(s[i as int], pred);
            assert(s.take(i + 1) == s.take(i as int).push(s[i as int]));
        }
        let ghost before = kept@;
        if !crate::text::str_eq(d.id.as_str(), doc_id) {
            let ghost dv = d@;
            kept.push(d);
            assert(kept@.map_values(|d: KnowledgeDocument| d@) =~= before.map_values(|d: KnowledgeDocument| d@).push(dv));
        }
        i = i + 1;
    }
    assert(s.take(n as int) == s);
    knowledge.documents = kept;
}

/// After an upsert, the stored document is the first with its id, and every
/// document before it or with another id is as it was.
pub proof fn law_upsert_document(docs: Seq<DocumentView>, doc: DocumentView)
    ensures
        doc_index(spec_upsert_doc(docs, doc), doc.id) matches Some(i)
            && spec_upsert_doc(docs, doc)[i] == doc,
        forall|j: int| 0 <= j < docs.len() && docs[j].id != doc.id ==> #[trigger] spec_upsert_doc(docs, doc)[j] == docs[j],
        spec_upsert_doc(docs, doc).len() == docs.len() + (if doc_index(docs, doc.id) is Some { 0int } else { 1int }),
{
    lemma_doc_index(docs, doc.id);
    let r = spec_upsert_doc(docs, doc);
    lemma_doc_index(r, doc.id);
    match doc_index(docs, doc.id) {
        Some(i) => {
            assert(r[i].id == doc.id);
            assert forall|j: int| 0 <= j < i implies #[trigger] r[j].id != doc.id by {
                assert(r[j] == docs[j]);
            }
        },
        None => {
            let k = docs.len() as int;
            assert(r[k] == doc);
            assert forall|j: int| 0 <= j < k implies #[trigger] r[j].id != doc.id by {
                assert(r[j] == docs[j]);
            }
        },
    }
}

/// A stored document is what the request asked for: the request's id (or the
/// fresh one when it gives none), its category, title, section and content,
/// and its metadata (or the empty object when it gives none).
pub open spec fn stores_request(d: DocumentView, req: UpsertDocumentRequest, fresh_id: Seq<char>) -> bool {
    &&& (req.id matches Some(x) ==> d.id == x@)
    &&& (req.id is None ==> d.id == fresh_id)
    &&& d.category_id == req.category_id@
    &&& d.title == req.title@
    &&& d.section == req.section@
    &&& d.content == req.content@
    &&& (req.metadata matches Some(m) ==> d.metadata == m@)
    &&& (req.metadata is None ==> d.metadata == empty_object())
}

/// An upsert stores the requested document under its id, where it is the
/// first document with that id, and leaves every document with another id
/// as it was.
pub proof fn law_upsert_request(docs: Seq<DocumentView>, req: UpsertDocumentRequest, fresh_id: Seq<char>)
    ensures
        ({
            let id = match req.id {
                Some(x) => x@,
                None => fresh_id,
            };
            let r = spec_upsert_doc(docs, requested_document(req, fresh_id));
            &&& doc_index(r, id) matches Some(i) && stores_request(r[i], req, fresh_id)
            &&& forall|j: int| 0 <= j < docs.len() && docs[j].id != id ==> #[trigger] r[j] == docs[j]
        }),
{
    let doc = requested_document(req, fresh_id);
    law_upsert_document(docs, doc);
}

/// After a delete, no document has the id, and the others keep their order.
pub proof fn law_delete_document(docs: Seq<DocumentView>, id: Seq<char>)
    ensures
        forall|j: int| 0 <= j < without_doc(docs, id).len() ==> #[trigger] without_doc(docs, id)[j].id != id,
        doc_index(without_doc(docs, id), id) is None,
        without_doc(docs, id).len() <= docs.len(),
{
    let pred = |d: DocumentView| d.id != id;
    let f = without_doc(docs, id);
    assert(f == docs.filter(pred));
    docs.lemma_filter_len(pred);
    assert forall|j: int| 0 <= j < f.len() implies #[trigger] f[j].id != id by {
        docs.lemma_filter_pred(pred, j);
    }
    lemma_doc_index(f, id);
}

/// A refused search: its query is blank.
pub fn check_search_query(query: &str) -> (r: Result<(), ApiError>)
    ensures
        trim(query@).len() == 0 ==> (r matches Err(e) && rejects(e, "query must not be empty"@)),
        trim(query@).len() != 0 ==> r is Ok,
{
    let t = trim_str(query);
    if t.unicode_len() == 0 {
        return Err(reject("query must not be empty"));
    }
    Ok(())
}

/// A flow saved under a path must carry that path's id.
pub fn check_flow_id(body_id: &str, path_id: &str) -> (r: Result<(), ApiError>)
    ensures
        body_id@ != path_id@ ==> (r matches Err(e) && rejects(e, "flow id mismatch"@)),
        body_id@ == path_id@ ==> r is Ok,
{
    if !crate::text::str_eq(body_id, path_id) {
        return Err(reject("flow id mismatch"));
    }
    Ok(())
}

/// The error for a flow that failed validation; `issues` is the list of
/// issues as text.
pub fn flow_validation_failed(issues: &str) -> (e: ApiError)
    ensures
        rejects(e, "flow validation failed: "@ + issues@),
{
    ApiError::invalid_request("flow validation failed: ".to_string().concat(issues))
}

/// A prompt set saved under a path must carry that path's id.
pub fn check_prompt_id(body_id: &str, path_id: &str) -> (r: Result<(), ApiError>)
    ensures
        body_id@ != path_id@ ==> (r matches Err(e) && rejects(e, "prompt set id mismatch"@)),
        body_id@ == path_id@ ==> r is Ok,
{
    if !crate::text::str_eq(body_id, path_id) {
        return Err(reject("prompt set id mismatch"));
    }
    Ok(())
}

/// The prompt set an update request writes.
pub fn prompt_from_update(req: UpdatePromptRequest) -> (p: DraftPromptSet)
    ensures
        p@.id == req.id@,
        p@.name == req.name@,
        p@.version == req.version@,
        p@.identity == req.identity@,
        p@.router == req.router@,
        p@.response == req.response@,
{
    let router = template_from_dto(&req.router);
    let response = template_from_dto(&req.response);
    DraftPromptSet {
        id: req.id,
        name: req.name,
        version: req.version,
        identity: req.identity,
        router,
        response,
    }
}

/// The id of the first node of a new flow: the request's, or `start`.
pub open spec fn new_flow_initial(req: CreateFlowRequest) -> Seq<char> {
    match req.initial {
        Some(i) => i@,
        None => "start"@,
    }
}

/// A new flow starts at the node the request names, or at `start` when it
/// names none.
pub proof fn law_new_flow_initial(req: CreateFlowRequest)
    ensures
        req.initial matches Some(i) ==> new_flow_initial(req) == i@,
        req.initial is None ==> new_flow_initial(req) == "start"@,
{
}

/// A new flow: a first node (of type `flow`, task "New Node") whose action
/// `finish` leads to an `end` node; the two are drawn at (120, 80) and (120, 220).
pub fn new_flow(req: &CreateFlowRequest) -> (f: DraftFlow)
    ensures
        f@.id == req.id@,
        f@.name == opt_str_view(req.name),
        f@.version == 1,
        f@.initial == new_flow_initial(*req),
        f@.nodes.len() == 2,
        f@.nodes[0].id == new_flow_initial(*req),
        f@.nodes[0].node_type == "flow"@,
        f@.nodes[0].payload == JsonView::Object(seq![("task"@, JsonView::String("New Node"@))]),
        f@.nodes[0].transitions == seq![crate::studio::types::TransitionView { action: "finish"@, target: "end"@ }],
        f@.nodes[0].position == Some((f64_bits_of(120) as u64, f64_bits_of(80) as u64)),
        f@.nodes[1].id == "end"@,
        f@.nodes[1].node_type == "end"@,
        f@.nodes[1].payload == empty_object(),
        f@.nodes[1].transitions.len() == 0,
        f@.nodes[1].position == Some((f64_bits_of(120) as u64, f64_bits_of(220) as u64)),
        req.initial matches Some(i) ==> f@.initial == i@ && f@.nodes[0].id == i@,
        req.initial is None ==> f@.initial == "start"@ && f@.nodes[0].id == "start"@,
{
    proof {
        law_new_flow_initial(*req);
    }
    let initial = match &req.initial {
        Some(i) => i.clone(),
        None => "start".to_string(),
    };
    let mut task: Vec<(String, JsonValue)> = Vec::new();
    task.push(("task".to_string(), JsonValue::String("New Node".to_string())));
    let ghost task_entries = task@;
    proof {
        crate::values::lemma_json_entries_view(task@);
    }
    let mut first_transitions: Vec<DraftFlowTransition> = Vec::new();
    first_transitions.push(DraftFlowTransition { action: "finish".to_string(), target: "end".to_string() });
    let first = DraftFlowNode {
        id: initial.clone(),
        node_type: "flow".to_string(),
        payload: JsonValue::Object(task),
        transitions: first_transitions,
        position: Some(NodePosition { x_bits: f64_bits(120), y_bits: f64_bits(80) }),
    };
    let end = DraftFlowNode {
        id: "end".to_string(),
        node_type: "end".to_string(),
        payload: new_empty_object(),
        transitions: Vec::new(),
        position: Some(NodePosition { x_bits: f64_bits(120), y_bits: f64_bits(220) }),
    };
    let mut nodes: Vec<DraftFlowNode> = Vec::new();
    nodes.push(first);
    nodes.push(end);
    let f = DraftFlow { id: req.id.clone(), name: clone_opt_str(&req.name), version: 1, initial, nodes };
    proof {
        assert(crate::values::json_entries_view(task_entries) =~= seq![("task"@, JsonView::String("New Node"@))]);
    }
    assert(f@.nodes[0].payload =~= JsonView::Object(seq![("task"@, JsonView::String("New Node"@))]));
    assert(f@.nodes[0].transitions =~= seq![crate::studio::types::TransitionView { action: "finish"@, target: "end"@ }]);
    f
}

/// Adds a flow to a company's flows unless it lists it already; says whether it did.
pub fn add_flow_to_company(company: &mut DraftCompany, flow_id: &str) -> (added: bool)
    ensures
        added == !old(company)@.flows.contains(flow_id@),
        added ==> final(company)@ == (CompanyView { flows: old(company)@.flows.push(flow_id@), ..old(company)@ }),
        !added ==> final(company)@ == old(company)@,
{
    let ghost fv = company@.flows;
    let mut i: usize = 0;
    while i < company.flows.len()
        invariant
            i <= company.flows@.len(),
            fv == strings_view(company.flows@),
            forall|j: int| 0 <= j < i ==> #[trigger] fv[j] != flow_id@,
        decreases company.flows@.len() - i,
    {
        if crate::text::str_eq(company.flows[i].as_str(), flow_id) {
            assert(fv[i as int] == flow_id@);
            return false;
        }
        i = i + 1;
    }
    company.flows.push(flow_id.to_string());
    assert(strings_view(company.flows@) =~= fv.push(flow_id@));
    true
}

/// The published versions as the API lists them, in the order given.
pub fn versions_response(versions: Vec<VersionManifest>) -> (r: VersionsResponse)
    ensures
        r.versions@.len() == versions@.len(),
        forall|i: int| 0 <= i < versions@.len() ==> #[trigger] r.versions@[i].version == versions@[i].version
            && r.versions@[i].published_at@ == versions@[i].published_at@
            && r.versions@[i].files@ == versions@[i].files@,
{
    let mut out: Vec<VersionDto> = Vec::new();
    let mut rest = versions;
    let ghost all = rest@;
    let n = rest.len();
    let mut i: usize = 0;
    while i < n
        invariant
            n == all.len(),
            i <= n,
            rest@ == all.subrange(i as int, n as int),
            out@.len() == i,
            forall|j: int| 0 <= j < i ==> #[trigger] out@[j].version == all[j].version
                && out@[j].published_at@ == all[j].published_at@
                && out@[j].files@ == all[j].files@,
        decreases n - i,
    {
        let v = rest.remove(0);
        assert(v == all[i as int]);
        assert(rest@ =~= all.subrange(i + 1, n as int));
        out.push(VersionDto { version: v.version, published_at: v.published_at, files: v.files });
        i = i + 1;
    }
    VersionsResponse { versions: out }
}

/// The first published version with the given number; an unknown one is refused.
pub fn find_version(versions: Vec<VersionManifest>, version: u32) -> (r: Result<VersionManifest, ApiError>)
    ensures
        (exists|i: int| 0 <= i < versions@.len() && #[trigger] versions@[i].version == version) ==> (r matches Ok(m)
            && exists|i: int| 0 <= i < versions@.len() && m == #[trigger] versions@[i] && m.version == version
                && forall|j: int| 0 <= j < i ==> #[trigger] versions@[j].version != version),
        !(exists|i: int| 0 <= i < versions@.len() && #[trigger] versions@[i].version == version) ==> (r matches Err(e)
            && rejects(e, "version not found: "@ + crate::text::decimal(version as nat))),
{
    let ghost all = versions@;
    let mut rest = versions;
    let n = rest.len();
    let mut i: usize = 0;
    while i < n
        invariant
            n == all.len(),
            all == versions@,
            i <= n,
            rest@ == all.subrange(i as int, n as int),
            forall|j: int| 0 <= j < i ==> #[trigger] all[j].version != version,
        decreases n - i,
    {
        let v = rest.remove(0);
        assert(v == all[i as int]);
        assert(rest@ =~= all.subrange(i + 1, n as int));
        if v.version == version {
            assert(versions@[i as int] == v);
            assert(versions@[i as int].version == version);
            return Ok(v);
        }
        i = i + 1;
    }
    let digits = crate::text::u64_to_decimal(version as u64);
    Err(ApiError::invalid_request("version not found: ".to_string().concat(digits.as_str())))
}

} // verus!
