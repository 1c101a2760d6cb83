//! C# definitions: how kinds of definition simplify and which parent-child
//! pairs become graph relationships.

use vstd::prelude::*;
use crate::analysis::types::{CSharpDefinitionType, DefinitionType, FqnPart, FqnPartKind};
use crate::graph::RelationshipType;
use crate::analysis::import_map::{
    add_definition_import_relationships, definition_import_view, definition_imports, file_import_view,
    import_keys_unique, process_imports, processed_imports, ImportedSymbolMap, ParsedImport,
};
use crate::analysis::types::{DefinitionImportedSymbolRelationship, FileImportedSymbolRelationship};
use crate::analysis::definition_map::{add_parent_relationships, child_relationships, keys_unique, relationship_view, DefinitionMap};
use crate::analysis::languages::definitions::{
    entry_views, file_definition_views, process_definitions, processed, ParsedDefinition,
};
use crate::analysis::languages::DefinitionRules;
use crate::analysis::types::{DefinitionRelationship, FileDefinitionRelationship};

verus! {

/// The kind a C# definition counts as when relationships are drawn.
pub open spec fn csharp_kind(t: CSharpDefinitionType) -> Option<CSharpDefinitionType> {
    match t {
        CSharpDefinitionType::Class => Some(CSharpDefinitionType::Class),
        CSharpDefinitionType::Struct => Some(CSharpDefinitionType::Class),
        CSharpDefinitionType::Record => Some(CSharpDefinitionType::Class),
        CSharpDefinitionType::Enum => Some(CSharpDefinitionType::Class),
        CSharpDefinitionType::Interface => Some(CSharpDefinitionType::Interface),
        CSharpDefinitionType::InstanceMethod => Some(CSharpDefinitionType::InstanceMethod),
        CSharpDefinitionType::StaticMethod => Some(CSharpDefinitionType::StaticMethod),
        CSharpDefinitionType::ExtensionMethod => Some(CSharpDefinitionType::StaticMethod),
        CSharpDefinitionType::Property => Some(CSharpDefinitionType::Property),
        CSharpDefinitionType::Constructor => Some(CSharpDefinitionType::Constructor),
        CSharpDefinitionType::Lambda => Some(CSharpDefinitionType::Lambda),
        CSharpDefinitionType::Field => None,
        CSharpDefinitionType::Delegate => Some(CSharpDefinitionType::Class),
        CSharpDefinitionType::Finalizer => Some(CSharpDefinitionType::InstanceMethod),
        CSharpDefinitionType::Operator => Some(CSharpDefinitionType::StaticMethod),
        CSharpDefinitionType::Indexer => Some(CSharpDefinitionType::Property),
        CSharpDefinitionType::Event => None,
        CSharpDefinitionType::AnonymousType => Some(CSharpDefinitionType::Class),
    }
}

/// The relationship between two simplified C# kinds, if any.
pub open spec fn csharp_pair(p: CSharpDefinitionType, c: CSharpDefinitionType) -> Option<RelationshipType> {
    match (p, c) {
        (CSharpDefinitionType::Class, CSharpDefinitionType::Class) => Some(RelationshipType::ClassToClass),
        (CSharpDefinitionType::Class, CSharpDefinitionType::Interface) => Some(RelationshipType::ClassToInterface),
        (CSharpDefinitionType::Class, CSharpDefinitionType::InstanceMethod) => Some(RelationshipType::ClassToMethod),
        (CSharpDefinitionType::Class, CSharpDefinitionType::StaticMethod) => Some(RelationshipType::ClassToMethod),
        (CSharpDefinitionType::Class, CSharpDefinitionType::Property) => Some(RelationshipType::ClassToProperty),
        (CSharpDefinitionType::Class, CSharpDefinitionType::Constructor) => Some(RelationshipType::ClassToConstructor),
        (CSharpDefinitionType::Class, CSharpDefinitionType::Enum) => Some(RelationshipType::ClassToClass),
        (CSharpDefinitionType::Class, CSharpDefinitionType::Lambda) => Some(RelationshipType::ClassToLambda),
        (CSharpDefinitionType::Interface, CSharpDefinitionType::Interface) => Some(RelationshipType::InterfaceToInterface),
        (CSharpDefinitionType::Interface, CSharpDefinitionType::Class) => Some(RelationshipType::InterfaceToClass),
        (CSharpDefinitionType::Interface, CSharpDefinitionType::InstanceMethod) => Some(RelationshipType::InterfaceToMethod),
        (CSharpDefinitionType::Interface, CSharpDefinitionType::Property) => Some(RelationshipType::InterfaceToProperty),
        (CSharpDefinitionType::InstanceMethod, CSharpDefinitionType::InstanceMethod) => Some(RelationshipType::MethodToMethod),
        (CSharpDefinitionType::StaticMethod, CSharpDefinitionType::StaticMethod) => Some(RelationshipType::MethodToMethod),
        (CSharpDefinitionType::InstanceMethod, CSharpDefinitionType::Lambda) => Some(RelationshipType::MethodToLambda),
        (CSharpDefinitionType::StaticMethod, CSharpDefinitionType::Lambda) => Some(RelationshipType::MethodToLambda),
        _ => None,
    }
}

/// The relationship from a C# parent to a C# child, after both kinds are
/// simplified; none when either is not a C# kind or simplifies to nothing.
pub open spec fn csharp_relationship(parent: DefinitionType, child: DefinitionType) -> Option<RelationshipType> {
    match (parent, child) {
        (DefinitionType::CSharp(p), DefinitionType::CSharp(c)) => match (csharp_kind(p), csharp_kind(c)) {
            (Some(sp), Some(sc)) => csharp_pair(sp, sc),
            _ => None,
        },
        _ => None,
    }
}

fn csharp_kind_of(t: CSharpDefinitionType) -> (r: Option<CSharpDefinitionType>)
    ensures
        r == csharp_kind(t),
{
    match t {
        CSharpDefinitionType::Class => Some(CSharpDefinitionType::Class),
        CSharpDefinitionType::Struct => Some(CSharpDefinitionType::Class),
        CSharpDefinitionType::Record => Some(CSharpDefinitionType::Class),
        CSharpDefinitionType::Enum => Some(CSharpDefinitionType::Class),
        CSharpDefinitionType::Interface => Some(CSharpDefinitionType::Interface),
        CSharpDefinitionType::InstanceMethod => Some(CSharpDefinitionType::InstanceMethod),
        CSharpDefinitionType::StaticMethod => Some(CSharpDefinitionType::StaticMethod),
        CSharpDefinitionType::ExtensionMethod => Some(CSharpDefinitionType::StaticMethod),
        CSharpDefinitionType::Property => Some(CSharpDefinitionType::Property),
        CSharpDefinitionType::Constructor => Some(CSharpDefinitionType::Constructor),
        CSharpDefinitionType::Lambda => Some(CSharpDefinitionType::Lambda),
        CSharpDefinitionType::Field => None,
        CSharpDefinitionType::Delegate => Some(CSharpDefinitionType::Class),
        CSharpDefinitionType::Finalizer => Some(CSharpDefinitionType::InstanceMethod),
        CSharpDefinitionType::Operator => Some(CSharpDefinitionType::StaticMethod),
        CSharpDefinitionType::Indexer => Some(CSharpDefinitionType::Property),
        CSharpDefinitionType::Event => None,
        CSharpDefinitionType::AnonymousType => Some(CSharpDefinitionType::Class),
    }
}

fn csharp_pair_of(p: CSharpDefinitionType, c: CSharpDefinitionType) -> (r: Option<RelationshipType>)
    ensures
        r == csharp_pair(p, c),
{
    match (p, c) {
        (CSharpDefinitionType::Class, CSharpDefinitionType::Class) => Some(RelationshipType::ClassToClass),
        (CSharpDefinitionType::Class, CSharpDefinitionType::Interface) => Some(RelationshipType::ClassToInterface),
        (CSharpDefinitionType::Class, CSharpDefinitionType::InstanceMethod) => Some(RelationshipType::ClassToMethod),
        (CSharpDefinitionType::Class, CSharpDefinitionType::StaticMethod) => Some(RelationshipType::ClassToMethod),
        (CSharpDefinitionType::Class, CSharpDefinitionType::Property) => Some(RelationshipType::ClassToProperty),
        (CSharpDefinitionType::Class, CSharpDefinitionType::Constructor) => Some(RelationshipType::ClassToConstructor),
        (CSharpDefinitionType::Class, CSharpDefinitionType::Enum) => Some(RelationshipType::ClassToClass),
        (CSharpDefinitionType::Class, CSharpDefinitionType::Lambda) => Some(RelationshipType::ClassToLambda),
        (CSharpDefinitionType::Interface, CSharpDefinitionType::Interface) => Some(RelationshipType::InterfaceToInterface),
        (CSharpDefinitionType::Interface, CSharpDefinitionType::Class) => Some(RelationshipType::InterfaceToClass),
        (CSharpDefinitionType::Interface, CSharpDefinitionType::InstanceMethod) => Some(RelationshipType::InterfaceToMethod),
        (CSharpDefinitionType::Interface, CSharpDefinitionType::Property) => Some(RelationshipType::InterfaceToProperty),
        (CSharpDefinitionType::InstanceMethod, CSharpDefinitionType::InstanceMethod) => Some(RelationshipType::MethodToMethod),
        (CSharpDefinitionType::StaticMethod, CSharpDefinitionType::StaticMethod) => Some(RelationshipType::MethodToMethod),
        (CSharpDefinitionType::InstanceMethod, CSharpDefinitionType::Lambda) => Some(RelationshipType::MethodToLambda),
        (CSharpDefinitionType::StaticMethod, CSharpDefinitionType::Lambda) => Some(RelationshipType::MethodToLambda),
        _ => None,
    }
}

/// The relationship from a C# parent to a C# child.
pub fn csharp_relationship_type(parent: &DefinitionType, child: &DefinitionType) -> (r: Option<RelationshipType>)
    ensures
        r == csharp_relationship(*parent, *child),
{
    match (*parent, *child) {
        (DefinitionType::CSharp(p), DefinitionType::CSharp(c)) => match (csharp_kind_of(p), csharp_kind_of(c)) {
            (Some(sp), Some(sc)) => csharp_pair_of(sp, sc),
            _ => None,
        },
        _ => None,
    }
}

/// Whether a C# name is top-level: a single part, or a name directly
/// inside a namespace.
pub open spec fn csharp_top_level(parts: Seq<FqnPart>) -> bool {
    parts.len() == 1 || (parts.len() == 2 && parts[0].node_type == FqnPartKind::Namespace)
}

/// Analyzer for C# files.
pub struct CSharpAnalyzer;

impl CSharpAnalyzer {
    pub fn new() -> (a: Self) {
        CSharpAnalyzer
    }

    /// Whether a definition with this name is defined by its file directly.
    pub fn is_top_level_definition(&self, fqn: &Vec<FqnPart>) -> (r: bool)
        ensures
            r == csharp_top_level(fqn@),
    {
        fqn.len() == 1 || (fqn.len() == 2 && fqn[0].node_type == FqnPartKind::Namespace)
    }
}

impl CSharpAnalyzer {
    /// Files the definitions parsed from one file, as `processed` states
    /// under the CSharp rules.
    pub fn process_definitions(
        &self,
        defs: &Vec<ParsedDefinition>,
        relative_file_path: &str,
        definition_map: &mut DefinitionMap,
        file_definition_relationships: &mut Vec<FileDefinitionRelationship>,
    )
        requires
            keys_unique(old(definition_map)@),
        ensures
            keys_unique(final(definition_map)@),
            (entry_views(final(definition_map)@), file_definition_views(final(file_definition_relationships)@))
                == processed(
                    DefinitionRules::CSharp,
                    relative_file_path@,
                    (entry_views(old(definition_map)@), file_definition_views(old(file_definition_relationships)@)),
                    defs@,
                ),
    {
        process_definitions(DefinitionRules::CSharp, defs, relative_file_path, definition_map, file_definition_relationships)
    }

    /// Files the imports parsed from one file, as `processed_imports`
    /// states under the CSharp rules.
    pub fn process_imports(
        &self,
        imports: &Vec<ParsedImport>,
        relative_file_path: &str,
        imported_symbol_map: &mut ImportedSymbolMap,
        file_import_relationships: &mut Vec<FileImportedSymbolRelationship>,
    )
        requires
            import_keys_unique(old(imported_symbol_map)@),
        ensures
            import_keys_unique(final(imported_symbol_map)@),
            (final(imported_symbol_map)@, final(file_import_relationships)@.map_values(|r: FileImportedSymbolRelationship| file_import_view(r)))
                == processed_imports(
                    DefinitionRules::CSharp,
                    relative_file_path@,
                    (old(imported_symbol_map)@, old(file_import_relationships)@.map_values(|r: FileImportedSymbolRelationship| file_import_view(r))),
                    imports@,
                ),
    {
        process_imports(DefinitionRules::CSharp, imports, relative_file_path, imported_symbol_map, file_import_relationships)
    }

    /// Appends the relationship from each definition's parent to the
    /// definition, under the CSharp rules.
    pub fn add_definition_relationships(
        &self,
        definition_map: &DefinitionMap,
        definition_relationships: &mut Vec<DefinitionRelationship>,
    )
        requires
            keys_unique(definition_map@),
        ensures
            final(definition_relationships)@.map_values(|r: DefinitionRelationship| relationship_view(r))
                == old(definition_relationships)@.map_values(|r: DefinitionRelationship| relationship_view(r))
                + child_relationships(DefinitionRules::CSharp, definition_map@),
    {
        add_parent_relationships(DefinitionRules::CSharp, definition_map, definition_relationships)
    }
}

} // verus!
