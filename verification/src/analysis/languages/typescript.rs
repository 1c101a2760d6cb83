//! TypeScript definitions: how kinds of definition simplify and which
//! parent-child pairs become graph relationships.

use vstd::prelude::*;
use crate::analysis::types::{DefinitionType, FqnPart, TypeScriptDefinitionType};
use crate::graph::RelationshipType;
use crate::analysis::import_map::{
    add_definition_import_relationships, definition_import_view, definition_imports, file_import_view,
    import_keys_unique, process_imports, processed_imports, ImportedSymbolMap, ParsedImport,
};
use crate::analysis::types::{DefinitionImportedSymbolRelationship, FileImportedSymbolRelationship};
use crate::analysis::definition_map::{add_parent_relationships, child_relationships, keys_unique, relationship_view, DefinitionMap};
use crate::analysis::languages::definitions::{
    entry_views, file_definition_views, process_definitions, processed, ParsedDefinition,
};
use crate::analysis::languages::DefinitionRules;
use crate::analysis::types::{DefinitionRelationship, FileDefinitionRelationship};

verus! {

/// The kind a TypeScript definition counts as when relationships are drawn.
pub open spec fn typescript_kind(t: TypeScriptDefinitionType) -> TypeScriptDefinitionType {
    match t {
        TypeScriptDefinitionType::Class => TypeScriptDefinitionType::Class,
        TypeScriptDefinitionType::NamedClassExpression => TypeScriptDefinitionType::Class,
        TypeScriptDefinitionType::Method => TypeScriptDefinitionType::Method,
        TypeScriptDefinitionType::Function => TypeScriptDefinitionType::Function,
        TypeScriptDefinitionType::NamedFunctionExpression => TypeScriptDefinitionType::Function,
        TypeScriptDefinitionType::NamedArrowFunction => TypeScriptDefinitionType::Function,
        TypeScriptDefinitionType::NamedGeneratorFunctionExpression => TypeScriptDefinitionType::Function,
        TypeScriptDefinitionType::NamedCallExpression => TypeScriptDefinitionType::Function,
        TypeScriptDefinitionType::Interface => TypeScriptDefinitionType::Interface,
        TypeScriptDefinitionType::Namespace => TypeScriptDefinitionType::Namespace,
    }
}

/// The relationship between two simplified TypeScript kinds, if any.
pub open spec fn typescript_pair(p: TypeScriptDefinitionType, c: TypeScriptDefinitionType) -> Option<RelationshipType> {
    match (p, c) {
        (TypeScriptDefinitionType::Class, TypeScriptDefinitionType::Class) => Some(RelationshipType::ClassToClass),
        (TypeScriptDefinitionType::Class, TypeScriptDefinitionType::Method) => Some(RelationshipType::ClassToMethod),
        (TypeScriptDefinitionType::Method, TypeScriptDefinitionType::Class) => Some(RelationshipType::MethodToClass),
        (TypeScriptDefinitionType::Method, TypeScriptDefinitionType::Function) => Some(RelationshipType::MethodToFunction),
        (TypeScriptDefinitionType::Function, TypeScriptDefinitionType::Class) => Some(RelationshipType::FunctionToClass),
        (TypeScriptDefinitionType::Function, TypeScriptDefinitionType::Function) => Some(RelationshipType::FunctionToFunction),
        (TypeScriptDefinitionType::Interface, TypeScriptDefinitionType::Class) => Some(RelationshipType::InterfaceToClass),
        (TypeScriptDefinitionType::Interface, TypeScriptDefinitionType::Function) => Some(RelationshipType::InterfaceToFunction),
        _ => None,
    }
}

/// The relationship from a TypeScript parent to a TypeScript child, after both
/// kinds are simplified; none when either is not a TypeScript kind.
pub open spec fn typescript_relationship(parent: DefinitionType, child: DefinitionType) -> Option<RelationshipType> {
    match (parent, child) {
        (DefinitionType::TypeScript(p), DefinitionType::TypeScript(c)) => typescript_pair(typescript_kind(p), typescript_kind(c)),
        _ => None,
    }
}

fn typescript_kind_of(t: TypeScriptDefinitionType) -> (r: TypeScriptDefinitionType)
    ensures
        r == typescript_kind(t),
{
    match t {
        TypeScriptDefinitionType::Class => TypeScriptDefinitionType::Class,
        TypeScriptDefinitionType::NamedClassExpression => TypeScriptDefinitionType::Class,
        TypeScriptDefinitionType::Method => TypeScriptDefinitionType::Method,
        TypeScriptDefinitionType::Function => TypeScriptDefinitionType::Function,
        TypeScriptDefinitionType::NamedFunctionExpression => TypeScriptDefinitionType::Function,
        TypeScriptDefinitionType::NamedArrowFunction => TypeScriptDefinitionType::Function,
        TypeScriptDefinitionType::NamedGeneratorFunctionExpression => TypeScriptDefinitionType::Function,
        TypeScriptDefinitionType::NamedCallExpression => TypeScriptDefinitionType::Function,
        TypeScriptDefinitionType::Interface => TypeScriptDefinitionType::Interface,
        TypeScriptDefinitionType::Namespace => TypeScriptDefinitionType::Namespace,
    }
}

fn typescript_pair_of(p: TypeScriptDefinitionType, c: TypeScriptDefinitionType) -> (r: Option<RelationshipType>)
    ensures
        r == typescript_pair(p, c),
{
    match (p, c) {
        (TypeScriptDefinitionType::Class, TypeScriptDefinitionType::Class) => Some(RelationshipType::ClassToClass),
        (TypeScriptDefinitionType::Class, TypeScriptDefinitionType::Method) => Some(RelationshipType::ClassToMethod),
        (TypeScriptDefinitionType::Method, TypeScriptDefinitionType::Class) => Some(RelationshipType::MethodToClass),
        (TypeScriptDefinitionType::Method, TypeScriptDefinitionType::Function) => Some(RelationshipType::MethodToFunction),
        (TypeScriptDefinitionType::Function, TypeScriptDefinitionType::Class) => Some(RelationshipType::FunctionToClass),
        (TypeScriptDefinitionType::Function, TypeScriptDefinitionType::Function) => Some(RelationshipType::FunctionToFunction),
        (TypeScriptDefinitionType::Interface, TypeScriptDefinitionType::Class) => Some(RelationshipType::InterfaceToClass),
        (TypeScriptDefinitionType::Interface, TypeScriptDefinitionType::Function) => Some(RelationshipType::InterfaceToFunction),
        _ => None,
    }
}

/// The relationship from a TypeScript parent to a TypeScript child.
pub fn typescript_relationship_type(parent: &DefinitionType, child: &DefinitionType) -> (r: Option<RelationshipType>)
    ensures
        r == typescript_relationship(*parent, *child),
{
    match (*parent, *child) {
        (DefinitionType::TypeScript(p), DefinitionType::TypeScript(c)) => typescript_pair_of(typescript_kind_of(p), typescript_kind_of(c)),
        _ => None,
    }
}

/// Whether a TypeScript name is top-level, that is, defined by its file directly.
pub open spec fn typescript_top_level(parts: Seq<FqnPart>) -> bool {
    parts.len() == 1
}

/// Analyzer for TypeScript files.
pub struct TypeScriptAnalyzer;

impl TypeScriptAnalyzer {
    pub fn new() -> (a: Self) {
        TypeScriptAnalyzer
    }

    /// Whether a definition with this name is defined by its file directly.
    pub fn is_top_level_definition(&self, fqn: &Vec<FqnPart>) -> (r: bool)
        ensures
            r == typescript_top_level(fqn@),
    {
        fqn.len() == 1
    }
}

impl TypeScriptAnalyzer {
    /// Files the definitions parsed from one file, as `processed` states
    /// under the TypeScript rules.
    pub fn process_definitions(
        &self,
        defs: &Vec<ParsedDefinition>,
        relative_file_path: &str,
        definition_map: &mut DefinitionMap,
        file_definition_relationships: &mut Vec<FileDefinitionRelationship>,
    )
        requires
            keys_unique(old(definition_map)@),
        ensures
            keys_unique(final(definition_map)@),
            (entry_views(final(definition_map)@), file_definition_views(final(file_definition_relationships)@))
                == processed(
                    DefinitionRules::TypeScript,
                    relative_file_path@,
                    (entry_views(old(definition_map)@), file_definition_views(old(file_definition_relationships)@)),
                    defs@,
                ),
    {
        process_definitions(DefinitionRules::TypeScript, defs, relative_file_path, definition_map, file_definition_relationships)
    }

    /// Files the imports parsed from one file, as `processed_imports`
    /// states under the TypeScript rules.
    pub fn process_imports(
        &self,
        imports: &Vec<ParsedImport>,
        relative_file_path: &str,
        imported_symbol_map: &mut ImportedSymbolMap,
        file_import_relationships: &mut Vec<FileImportedSymbolRelationship>,
    )
        requires
            import_keys_unique(old(imported_symbol_map)@),
        ensures
            import_keys_unique(final(imported_symbol_map)@),
            (final(imported_symbol_map)@, final(file_import_relationships)@.map_values(|r: FileImportedSymbolRelationship| file_import_view(r)))
                == processed_imports(
                    DefinitionRules::TypeScript,
                    relative_file_path@,
                    (old(imported_symbol_map)@, old(file_import_relationships)@.map_values(|r: FileImportedSymbolRelationship| file_import_view(r))),
                    imports@,
                ),
    {
        process_imports(DefinitionRules::TypeScript, imports, relative_file_path, imported_symbol_map, file_import_relationships)
    }

    /// Appends the relationship from each definition's parent to the
    /// definition, under the TypeScript rules, and from each definition to the
    /// symbols imported inside it.
    pub fn add_definition_relationships(
        &self,
        definition_map: &DefinitionMap,
        imported_symbol_map: &ImportedSymbolMap,
        definition_relationships: &mut Vec<DefinitionRelationship>,
        definition_imported_symbol_relationships: &mut Vec<DefinitionImportedSymbolRelationship>,
    )
        requires
            keys_unique(definition_map@),
            import_keys_unique(imported_symbol_map@),
        ensures
            final(definition_relationships)@.map_values(|r: DefinitionRelationship| relationship_view(r))
                == old(definition_relationships)@.map_values(|r: DefinitionRelationship| relationship_view(r))
                + child_relationships(DefinitionRules::TypeScript, definition_map@),
            final(definition_imported_symbol_relationships)@.map_values(|r: DefinitionImportedSymbolRelationship| definition_import_view(r))
                == old(definition_imported_symbol_relationships)@.map_values(|r: DefinitionImportedSymbolRelationship| definition_import_view(r))
                + definition_imports(definition_map@, imported_symbol_map@),
    {
        add_definition_import_relationships(definition_map, imported_symbol_map, definition_imported_symbol_relationships);
        add_parent_relationships(DefinitionRules::TypeScript, definition_map, definition_relationships)
    }
}

} // verus!
