//! The studio: drafts of projects, their conversions to published files, and
//! the edits and the publish pipeline that work on them.

pub mod bootstrap;
pub mod convert;
pub mod mappers;
pub mod publish;
pub mod store;
pub mod types;
