//! Verified core of the conversation-flow HTTP API: configuration parsing,
//! the companies registry, studio drafts and their conversions, the publish
//! pipeline's decisions and the mapping of runtime errors to API errors.

pub mod companies;
pub mod config;
pub mod dto;
pub mod errors;
pub mod eval_store;
pub mod float_bits;
pub mod handlers;
pub mod middleware;
pub mod paths;
pub mod sorting;
pub mod state;
pub mod studio;
pub mod text;
pub mod values;
