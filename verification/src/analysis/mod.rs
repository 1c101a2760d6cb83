//! The code graph built from parsed files: its nodes and relationships, and
//! the language rules that connect definitions.

pub mod definition_map;
pub mod file_tree;
pub mod import_map;
pub mod import_resolution;
pub mod languages;
pub mod summary;
pub mod types;
