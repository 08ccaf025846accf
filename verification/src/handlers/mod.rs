//! What the HTTP handlers decide, apart from the requests and the I/O that
//! surround it.

pub mod clients;
pub mod companies;
pub mod debug;
pub mod evals;
pub mod flow_detail;
pub mod flows;
pub mod knowledge;
pub mod overview;
pub mod prompt;
pub mod search;
pub mod session;
pub mod sessions_list;
pub mod studio;
