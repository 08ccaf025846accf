//! The shapes of the API's requests and responses, as plain values.

pub mod clients;
pub mod companies;
pub mod debug;
pub mod error;
pub mod evals;
pub mod flow_detail;
pub mod flows;
pub mod history;
pub mod knowledge;
pub mod mappers;
pub mod message;
pub mod overview;
pub mod prompt;
pub mod search;
pub mod session;
pub mod sessions_list;
pub mod studio;
