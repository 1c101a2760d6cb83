//! Verified core of a code-repository indexer: identifiers for graph nodes,
//! indexing statistics, schema and query text for the graph database, and
//! the relationship rules that turn parsed definitions into graph edges.

pub mod analysis;
pub mod count_table;
pub mod database;
pub mod deployed;
pub mod execution;
pub mod graph;
pub mod id_table;
pub mod indexer;
pub mod mutation;
pub mod parsing;
pub mod paths;
pub mod project;
pub mod repository;
pub mod runner;
pub mod seq_util;
pub mod stats;
pub mod text;
pub mod text_map;
pub mod text_order;
pub mod writer;
