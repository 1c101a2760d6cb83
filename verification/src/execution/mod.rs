//! Running indexing over a workspace.

pub mod executor;
