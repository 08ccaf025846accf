//! A session's conversation history.

use vstd::prelude::*;

verus! {

pub struct HistoryEntryDto {
    pub role: String,
    pub content: String,
    pub event: Option<String>,
    pub timestamp: String,
}

pub struct HistoryResponse {
    pub entries: Vec<HistoryEntryDto>,
}

} // verus!
