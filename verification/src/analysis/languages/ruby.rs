//! Ruby definitions: which parent-child pairs become graph relationships.

use vstd::prelude::*;
use crate::analysis::types::{DefinitionType, FqnPart, RubyDefinitionType};
use crate::graph::RelationshipType;
use crate::analysis::definition_map::{add_parent_relationships, child_relationships, keys_unique, relationship_view, DefinitionMap};
use crate::analysis::languages::definitions::{
    entry_views, file_definition_views, process_definitions, processed, ParsedDefinition,
};
use crate::analysis::languages::DefinitionRules;
use crate::analysis::types::{DefinitionRelationship, FileDefinitionRelationship};

verus! {

/// The relationship between two kinds of Ruby definition, if any.
pub open spec fn ruby_pair(p: RubyDefinitionType, c: RubyDefinitionType) -> Option<RelationshipType> {
    match (p, c) {
        (RubyDefinitionType::Class, RubyDefinitionType::Method) => Some(RelationshipType::ClassToMethod),
        (RubyDefinitionType::Class, RubyDefinitionType::SingletonMethod) => Some(RelationshipType::ClassToSingletonMethod),
        (RubyDefinitionType::Class, RubyDefinitionType::Class) => Some(RelationshipType::ClassToClass),
        (RubyDefinitionType::Class, RubyDefinitionType::Lambda) => Some(RelationshipType::ClassToLambda),
        (RubyDefinitionType::Class, RubyDefinitionType::Proc) => Some(RelationshipType::ClassToProc),
        (RubyDefinitionType::Module, RubyDefinitionType::Method) => Some(RelationshipType::ModuleToMethod),
        (RubyDefinitionType::Module, RubyDefinitionType::SingletonMethod) => Some(RelationshipType::ModuleToSingletonMethod),
        (RubyDefinitionType::Module, RubyDefinitionType::Class) => Some(RelationshipType::ModuleToClass),
        (RubyDefinitionType::Module, RubyDefinitionType::Module) => Some(RelationshipType::ModuleToModule),
        _ => None,
    }
}

/// The relationship from a Ruby parent to a Ruby child; none when either
/// is not a Ruby kind.
pub open spec fn ruby_relationship(parent: DefinitionType, child: DefinitionType) -> Option<RelationshipType> {
    match (parent, child) {
        (DefinitionType::Ruby(p), DefinitionType::Ruby(c)) => ruby_pair(p, c),
        _ => None,
    }
}

fn ruby_pair_of(p: RubyDefinitionType, c: RubyDefinitionType) -> (r: Option<RelationshipType>)
    ensures
        r == ruby_pair(p, c),
{
    match (p, c) {
        (RubyDefinitionType::Class, RubyDefinitionType::Method) => Some(RelationshipType::ClassToMethod),
        (RubyDefinitionType::Class, RubyDefinitionType::SingletonMethod) => Some(RelationshipType::ClassToSingletonMethod),
        (RubyDefinitionType::Class, RubyDefinitionType::Class) => Some(RelationshipType::ClassToClass),
        (RubyDefinitionType::Class, RubyDefinitionType::Lambda) => Some(RelationshipType::ClassToLambda),
        (RubyDefinitionType::Class, RubyDefinitionType::Proc) => Some(RelationshipType::ClassToProc),
        (RubyDefinitionType::Module, RubyDefinitionType::Method) => Some(RelationshipType::ModuleToMethod),
        (RubyDefinitionType::Module, RubyDefinitionType::SingletonMethod) => Some(RelationshipType::ModuleToSingletonMethod),
        (RubyDefinitionType::Module, RubyDefinitionType::Class) => Some(RelationshipType::ModuleToClass),
        (RubyDefinitionType::Module, RubyDefinitionType::Module) => Some(RelationshipType::ModuleToModule),
        _ => None,
    }
}

/// The relationship from a Ruby parent to a Ruby child.
pub fn ruby_relationship_type(parent: &DefinitionType, child: &DefinitionType) -> (r: Option<RelationshipType>)
    ensures
        r == ruby_relationship(*parent, *child),
{
    match (*parent, *child) {
        (DefinitionType::Ruby(p), DefinitionType::Ruby(c)) => ruby_pair_of(p, c),
        _ => None,
    }
}

/// Whether a Ruby name is top-level, that is, defined by its file directly.
pub open spec fn ruby_top_level(parts: Seq<FqnPart>) -> bool {
    parts.len() == 1
}

/// Counts kept while Ruby files are analyzed.
#[derive(Debug, Clone, Copy)]
pub struct AnalyzerStats {
    pub definitions_processed: usize,
    pub references_processed: usize,
    pub relationships_created: usize,
}

impl Default for AnalyzerStats {
    fn default() -> (s: Self)
        ensures
            s.definitions_processed == 0,
            s.references_processed == 0,
            s.relationships_created == 0,
    {
        AnalyzerStats { definitions_processed: 0, references_processed: 0, relationships_created: 0 }
    }
}

/// Analyzer for Ruby files.
pub struct RubyAnalyzer;

impl RubyAnalyzer {
    pub fn new() -> (a: Self) {
        RubyAnalyzer
    }

    /// Whether a definition with this name is defined by its file directly.
    pub fn is_top_level_definition(&self, fqn: &Vec<FqnPart>) -> (r: bool)
        ensures
            r == ruby_top_level(fqn@),
    {
        fqn.len() == 1
    }
}

/// The scope that a Ruby definition of kind `parent` opens for one of kind
/// `child`: a namespace for anything in a module, a scope for methods of a
/// class, a block scope for anything in a method.
pub open spec fn ruby_scope(parent: RubyDefinitionType, child: RubyDefinitionType) -> Option<Seq<char>> {
    match (parent, child) {
        (RubyDefinitionType::Module, _) => Some("NAMESPACE"@),
        (RubyDefinitionType::Class, RubyDefinitionType::Method) => Some("SCOPE"@),
        (RubyDefinitionType::Class, RubyDefinitionType::SingletonMethod) => Some("SCOPE"@),
        (RubyDefinitionType::Method, _) => Some("BLOCK_SCOPE"@),
        (RubyDefinitionType::SingletonMethod, _) => Some("BLOCK_SCOPE"@),
        _ => None,
    }
}

impl RubyAnalyzer {
    /// The scope relationship between two kinds of Ruby definition.
    pub fn get_ruby_scope_relationship(
        parent_type: &RubyDefinitionType,
        child_type: &RubyDefinitionType,
    ) -> (r: Option<String>)
        ensures
            match r {
                Some(s) => ruby_scope(*parent_type, *child_type) == Some(s@),
                None => ruby_scope(*parent_type, *child_type) is None,
            },
    {
        match (*parent_type, *child_type) {
            (RubyDefinitionType::Module, _) => Some(String::from_str("NAMESPACE")),
            (RubyDefinitionType::Class, RubyDefinitionType::Method) => Some(String::from_str("SCOPE")),
            (RubyDefinitionType::Class, RubyDefinitionType::SingletonMethod) => Some(String::from_str("SCOPE")),
            (RubyDefinitionType::Method, _) => Some(String::from_str("BLOCK_SCOPE")),
            (RubyDefinitionType::SingletonMethod, _) => Some(String::from_str("BLOCK_SCOPE")),
            _ => None,
        }
    }
}

impl RubyAnalyzer {
    /// Files the definitions parsed from one file, as `processed` states
    /// under the Ruby rules.
    pub fn process_definitions(
        &self,
        defs: &Vec<ParsedDefinition>,
        relative_file_path: &str,
        definition_map: &mut DefinitionMap,
        file_definition_relationships: &mut Vec<FileDefinitionRelationship>,
    )
        requires
            keys_unique(old(definition_map)@),
        ensures
            keys_unique(final(definition_map)@),
            (entry_views(final(definition_map)@), file_definition_views(final(file_definition_relationships)@))
                == processed(
                    DefinitionRules::Ruby,
                    relative_file_path@,
                    (entry_views(old(definition_map)@), file_definition_views(old(file_definition_relationships)@)),
                    defs@,
                ),
    {
        process_definitions(DefinitionRules::Ruby, defs, relative_file_path, definition_map, file_definition_relationships)
    }

    /// Appends the relationship from each definition's parent to the
    /// definition, under the Ruby rules.
    pub fn add_definition_relationships(
        &self,
        definition_map: &DefinitionMap,
        definition_relationships: &mut Vec<DefinitionRelationship>,
    )
        requires
            keys_unique(definition_map@),
        ensures
            final(definition_relationships)@.map_values(|r: DefinitionRelationship| relationship_view(r))
                == old(definition_relationships)@.map_values(|r: DefinitionRelationship| relationship_view(r))
                + child_relationships(DefinitionRules::Ruby, definition_map@),
    {
        add_parent_relationships(DefinitionRules::Ruby, definition_map, definition_relationships)
    }
}

} // verus!
