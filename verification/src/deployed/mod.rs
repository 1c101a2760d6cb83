//! Indexing as the deployed service runs it.

pub mod executor;
