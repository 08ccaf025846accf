//! The client data files under the data root's `clients` directory.

use vstd::prelude::*;
use vstd::string::StringExecFns;

use crate::companies::strings_view;
use crate::dto::clients::{ClientDto, ClientsResponse};
use crate::errors::ApiError;
use crate::handlers::studio::rejects;
use crate::sorting::{sort_strings, texts_sorted};
use crate::studio::store::json_stem;

verus! {

/// Whether a listed file is a client file: its extension is `json`.
pub open spec fn is_json_name(name: Seq<char>) -> bool {
    json_stem(name) is Some
}

/// A client file as the API lists it: its path under the data root, and its
/// name without `.json`.
pub open spec fn client_entry(file_name: Seq<char>) -> (Seq<char>, Seq<char>) {
    ("clients/"@ + file_name, match json_stem(file_name) {
        Some(s) => s,
        None => file_name,
    })
}

/// The client files among the names listed in the `clients` directory,
/// ordered by path.
pub fn list_clients(names: &Vec<String>) -> (r: ClientsResponse)
    ensures
        exists|files: Seq<Seq<char>>| {
            &&& texts_sorted(files)
            &&& files.to_multiset() == strings_view(names@).filter(|n: Seq<char>| is_json_name(n)).to_multiset()
            &&& r.clients@.len() == files.len()
            &&& forall|i: int| 0 <= i < files.len() ==> (#[trigger] r.clients@[i]).path@ == client_entry(files[i]).0
                && r.clients@[i].name@ == client_entry(files[i]).1
        },
{
    let ghost pred = |n: Seq<char>| is_json_name(n);
    let ghost nv = strings_view(names@);
    let mut files: Vec<String> = Vec::new();
    assert(strings_view(files@) =~= nv.take(0).filter(pred));
    let mut i: usize = 0;
    while i < names.len()
        invariant
            i <= names@.len(),
            nv == strings_view(names@),
            pred == (|n: Seq<char>| is_json_name(n)),
            strings_view(files@) == nv.take(i as int).filter(pred),
        decreases names@.len() - i,
    {
        proof {
            nv.take(i as int).lemma_filter_push(nv[i as int], pred);
            assert(nv.take(i + 1) == nv.take(i as int).push(nv[i as int]));
        }
        let ghost before = files@;
        let stem = crate::studio::store::json_stem_of(names[i].as_str());
        if stem.is_some() {
            files.push(names[i].clone());
            assert(strings_view(files@) =~= strings_view(before).push(nv[i as int]));
        }
        i = i + 1;
    }
    assert(nv.take(names@.len() as int) == nv);
    let sorted = sort_strings(files);
    let ghost fv = strings_view(sorted@);
    let mut clients: Vec<ClientDto> = Vec::new();
    let mut k: usize = 0;
    while k < sorted.len()
        invariant
            k <= sorted@.len(),
            fv == strings_view(sorted@),
            clients@.len() == k,
            forall|j: int| 0 <= j < k ==> (#[trigger] clients@[j]).path@ == client_entry(fv[j]).0
                && clients@[j].name@ == client_entry(fv[j]).1,
        decreases sorted@.len() - k,
    {
        let file_name = &sorted[k];
        let path = "clients/".to_string().concat(file_name.as_str());
        let name = match crate::studio::store::json_stem_of(file_name.as_str()) {
            Some(s) => s,
            None => file_name.clone(),
        };
        clients.push(ClientDto { path, name });
        k = k + 1;
    }
    ClientsResponse { clients }
}

/// The error for an unknown client file.
pub fn client_not_found(name: &str) -> (e: ApiError)
    ensures
        rejects(e, "client not found: "@ + name@),
{
    ApiError::invalid_request("client not found: ".to_string().concat(name))
}

} // verus!
