//! The files of a project as the indexer receives them.

pub mod file_info;
pub mod source;
