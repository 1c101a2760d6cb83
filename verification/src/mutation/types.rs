//! Relationships keyed by integer node identifiers.

use vstd::prelude::*;
use crate::text::str_eq;

verus! {

/// One stored relationship: the identifiers of its ends, its type code and,
/// for relationships that have one, the span of the source that makes it.
#[derive(Debug, Clone, Copy)]
pub struct ConsolidatedRelationship {
    pub source_id: Option<u32>,
    pub target_id: Option<u32>,
    pub relationship_type: u8,
    pub start_byte: Option<usize>,
    pub end_byte: Option<usize>,
    pub start_line: Option<usize>,
    pub end_line: Option<usize>,
    pub start_column: Option<usize>,
    pub end_column: Option<usize>,
}

/// A relationship between two nodes with no source span.
pub open spec fn plain_relationship(source: u32, target: u32, code: u8) -> ConsolidatedRelationship {
    ConsolidatedRelationship {
        source_id: Some(source),
        target_id: Some(target),
        relationship_type: code,
        start_byte: None,
        end_byte: None,
        start_line: None,
        end_line: None,
        start_column: None,
        end_column: None,
    }
}

impl ConsolidatedRelationship {
    /// The identifier stored in the column `field_name`, for the identifier columns.
    pub fn get_u32_field(&self, field_name: &str) -> (r: Option<u32>)
        ensures
            r == (if field_name@ == "source_id"@ {
                self.source_id
            } else if field_name@ == "target_id"@ {
                self.target_id
            } else {
                None::<u32>
            }),
    {
        if str_eq(field_name, "source_id") {
            self.source_id
        } else if str_eq(field_name, "target_id") {
            self.target_id
        } else {
            None
        }
    }

    /// The type code, for the column `type`.
    pub fn get_u8_field(&self, field_name: &str) -> (r: Option<u8>)
        ensures
            r == (if field_name@ == "type"@ { Some(self.relationship_type) } else { None::<u8> }),
    {
        if str_eq(field_name, "type") {
            Some(self.relationship_type)
        } else {
            None
        }
    }

    /// The byte offsets of the source span, for the columns that hold them.
    pub fn get_i64_field(&self, field_name: &str) -> (r: Option<i64>)
        ensures
            r == (if field_name@ == "source_start_byte"@ {
                match self.start_byte { Some(v) => Some(v as i64), None => None::<i64> }
            } else if field_name@ == "source_end_byte"@ {
                match self.end_byte { Some(v) => Some(v as i64), None => None::<i64> }
            } else {
                None::<i64>
            }),
    {
        if str_eq(field_name, "source_start_byte") {
            match self.start_byte { Some(v) => Some(v as i64), None => None }
        } else if str_eq(field_name, "source_end_byte") {
            match self.end_byte { Some(v) => Some(v as i64), None => None }
        } else {
            None
        }
    }

    /// The lines and columns of the source span, for the columns that hold them.
    pub fn get_i32_field(&self, field_name: &str) -> (r: Option<i32>)
        ensures
            r == (if field_name@ == "source_start_line"@ {
                match self.start_line { Some(v) => Some(v as i32), None => None::<i32> }
            } else if field_name@ == "source_end_line"@ {
                match self.end_line { Some(v) => Some(v as i32), None => None::<i32> }
            } else if field_name@ == "source_start_col"@ {
                match self.start_column { Some(v) => Some(v as i32), None => None::<i32> }
            } else if field_name@ == "source_end_col"@ {
                match self.end_column { Some(v) => Some(v as i32), None => None::<i32> }
            } else {
                None::<i32>
            }),
    {
        if str_eq(field_name, "source_start_line") {
            match self.start_line { Some(v) => Some(v as i32), None => None }
        } else if str_eq(field_name, "source_end_line") {
            match self.end_line { Some(v) => Some(v as i32), None => None }
        } else if str_eq(field_name, "source_start_col") {
            match self.start_column { Some(v) => Some(v as i32), None => None }
        } else if str_eq(field_name, "source_end_col") {
            match self.end_column { Some(v) => Some(v as i32), None => None }
        } else {
            None
        }
    }
}

/// The relationships of a graph, one list per pair of node tables.
#[derive(Clone)]
pub struct ConsolidatedRelationships {
    pub directory_to_directory: Vec<ConsolidatedRelationship>,
    pub directory_to_file: Vec<ConsolidatedRelationship>,
    pub file_to_definition: Vec<ConsolidatedRelationship>,
    pub file_to_imported_symbol: Vec<ConsolidatedRelationship>,
    pub definition_to_definition: Vec<ConsolidatedRelationship>,
    pub definition_to_imported_symbol: Vec<ConsolidatedRelationship>,
    pub imported_symbol_to_imported_symbol: Vec<ConsolidatedRelationship>,
    pub imported_symbol_to_definition: Vec<ConsolidatedRelationship>,
    pub imported_symbol_to_file: Vec<ConsolidatedRelationship>,
}

impl ConsolidatedRelationships {
    pub open spec fn is_empty_spec(&self) -> bool {
        &&& self.directory_to_directory@.len() == 0
        &&& self.directory_to_file@.len() == 0
        &&& self.file_to_definition@.len() == 0
        &&& self.file_to_imported_symbol@.len() == 0
        &&& self.definition_to_definition@.len() == 0
        &&& self.definition_to_imported_symbol@.len() == 0
        &&& self.imported_symbol_to_imported_symbol@.len() == 0
        &&& self.imported_symbol_to_definition@.len() == 0
        &&& self.imported_symbol_to_file@.len() == 0
    }
}

impl Default for ConsolidatedRelationships {
    fn default() -> (r: Self)
        ensures
            r.is_empty_spec(),
    {
        ConsolidatedRelationships {
            directory_to_directory: Vec::new(),
            directory_to_file: Vec::new(),
            file_to_definition: Vec::new(),
            file_to_imported_symbol: Vec::new(),
            definition_to_definition: Vec::new(),
            definition_to_imported_symbol: Vec::new(),
            imported_symbol_to_imported_symbol: Vec::new(),
            imported_symbol_to_definition: Vec::new(),
            imported_symbol_to_file: Vec::new(),
        }
    }
}

} // verus!
