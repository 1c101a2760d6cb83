//! Mapping of the code graph onto integer node identifiers, in the form the
//! relationship tables store.

pub mod types;
pub mod utils;
