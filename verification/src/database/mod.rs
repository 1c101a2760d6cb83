//! Configuration of the graph database, identifiers for its nodes, its
//! schema and the query text sent to it.

pub mod changes;
pub mod queries;
pub mod schema;
pub mod utils;

use vstd::prelude::*;

verus! {

/// Database configuration options
#[derive(Debug, Clone)]
pub struct DatabaseConfig {
    /// Path to the database file or directory
    pub database_path: String,
    /// Buffer pool size in bytes (default: 1GB)
    pub buffer_pool_size: Option<usize>,
    /// Whether to enable compression (default: true)
    pub enable_compression: Option<bool>,
    /// Whether to run in read-only mode (default: false)
    pub read_only: Option<bool>,
    /// Maximum database size in bytes (default: unlimited)
    pub max_db_size: Option<usize>,
}

impl Default for DatabaseConfig {
    fn default() -> (c: Self)
        ensures
            c.database_path@ == "graph.db"@,
            c.buffer_pool_size == Some(1073741824usize),
            c.enable_compression == Some(true),
            c.read_only == Some(false),
            c.max_db_size == None::<usize>,
    {
        DatabaseConfig {
            database_path: String::from_str("graph.db"),
            buffer_pool_size: Some(1024 * 1024 * 1024),
            enable_compression: Some(true),
            read_only: Some(false),
            max_db_size: None,
        }
    }
}

impl DatabaseConfig {
    /// The default configuration at `database_path`.
    pub fn new(database_path: &str) -> (c: Self)
        ensures
            c.database_path@ == database_path@,
            c.buffer_pool_size == Some(1073741824usize),
            c.enable_compression == Some(true),
            c.read_only == Some(false),
            c.max_db_size == None::<usize>,
    {
        let defaults = Self::default();
        DatabaseConfig { database_path: String::from_str(database_path), ..defaults }
    }

    pub fn with_buffer_size(self, size: usize) -> (c: Self)
        ensures
            c == (DatabaseConfig { buffer_pool_size: Some(size), ..self }),
    {
        let mut c = self;
        c.buffer_pool_size = Some(size);
        c
    }

    pub fn with_compression(self, enabled: bool) -> (c: Self)
        ensures
            c == (DatabaseConfig { enable_compression: Some(enabled), ..self }),
    {
        let mut c = self;
        c.enable_compression = Some(enabled);
        c
    }

    pub fn read_only(self) -> (c: Self)
        ensures
            c == (DatabaseConfig { read_only: Some(true), ..self }),
    {
        let mut c = self;
        c.read_only = Some(true);
        c
    }

    pub fn with_max_size(self, size: usize) -> (c: Self)
        ensures
            c == (DatabaseConfig { max_db_size: Some(size), ..self }),
    {
        let mut c = self;
        c.max_db_size = Some(size);
        c
    }
}

} // verus!
