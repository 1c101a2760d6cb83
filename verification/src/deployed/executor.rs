//! The settings of one deployed indexing run, and the name it gives the
//! repository.

use vstd::prelude::*;
use crate::indexer::IndexingConfig;
use crate::paths::{file_name, file_name_of};

verus! {

/// One indexing run of the deployed service: where the repository is and
/// where the database and the exported files go.
pub struct DeployedIndexingExecutor {
    pub repository_path: String,
    pub database_path: String,
    pub parquet_path: String,
    pub config: IndexingConfig,
}

/// The name of a repository: the file name of its path, or `unknown`.
pub open spec fn repository_name_text(path: Seq<char>) -> Seq<char> {
    match file_name_of(path) {
        Some(n) => n,
        None => "unknown"@,
    }
}

impl DeployedIndexingExecutor {
    pub fn new(repository_path: String, database_path: String, parquet_path: String, config: IndexingConfig) -> (e: Self)
        ensures
            e.repository_path@ == repository_path@,
            e.database_path@ == database_path@,
            e.parquet_path@ == parquet_path@,
            e.config == config,
    {
        DeployedIndexingExecutor { repository_path, database_path, parquet_path, config }
    }

    /// The name the run gives the repository.
    pub fn repository_name(&self) -> (n: String)
        ensures
            n@ == repository_name_text(self.repository_path@),
    {
        match file_name(self.repository_path.as_str()) {
            Some(n) => n,
            None => String::from_str("unknown"),
        }
    }
}

} // verus!
