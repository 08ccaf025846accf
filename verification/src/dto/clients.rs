//! Client data files that a session can be started with.

use vstd::prelude::*;

verus! {

pub struct ClientDto {
    pub path: String,
    pub name: String,
}

pub struct ClientsResponse {
    pub clients: Vec<ClientDto>,
}

} // verus!
