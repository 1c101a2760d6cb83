//! Kotlin definitions: how kinds of definition simplify and which parent-child
//! pairs become graph relationships.

use vstd::prelude::*;
use crate::analysis::types::{DefinitionType, FqnPart, FqnPartKind, KotlinDefinitionType};
use crate::graph::RelationshipType;
use crate::analysis::import_map::{
    add_definition_import_relationships, definition_import_view, definition_imports, file_import_view,
    import_keys_unique, process_imports, processed_imports, ImportedSymbolMap, ParsedImport,
};
use crate::analysis::types::{DefinitionImportedSymbolRelationship, FileImportedSymbolRelationship};
use crate::analysis::definition_map::{add_parent_relationships, child_relationships, keys_unique, relationship_view, DefinitionMap};
use crate::analysis::languages::definitions::{
    entry_views, file_definition_views, process_definitions, processed, ParsedDefinition,
};
use crate::analysis::languages::DefinitionRules;
use crate::analysis::types::{DefinitionRelationship, FileDefinitionRelationship};

verus! {

/// The kind a Kotlin definition counts as when relationships are drawn.
pub open spec fn kotlin_kind(t: KotlinDefinitionType) -> Option<KotlinDefinitionType> {
    match t {
        KotlinDefinitionType::Class => Some(KotlinDefinitionType::Class),
        KotlinDefinitionType::DataClass => Some(KotlinDefinitionType::Class),
        KotlinDefinitionType::ValueClass => Some(KotlinDefinitionType::Class),
        KotlinDefinitionType::AnnotationClass => Some(KotlinDefinitionType::Class),
        KotlinDefinitionType::Object => Some(KotlinDefinitionType::Class),
        KotlinDefinitionType::CompanionObject => Some(KotlinDefinitionType::Class),
        KotlinDefinitionType::Enum => Some(KotlinDefinitionType::Class),
        KotlinDefinitionType::Interface => Some(KotlinDefinitionType::Interface),
        KotlinDefinitionType::EnumEntry => Some(KotlinDefinitionType::EnumEntry),
        KotlinDefinitionType::Constructor => Some(KotlinDefinitionType::Constructor),
        KotlinDefinitionType::Function => Some(KotlinDefinitionType::Function),
        KotlinDefinitionType::Property => Some(KotlinDefinitionType::Property),
        KotlinDefinitionType::Lambda => Some(KotlinDefinitionType::Lambda),
    }
}

/// The relationship between two simplified Kotlin kinds, if any.
pub open spec fn kotlin_pair(p: KotlinDefinitionType, c: KotlinDefinitionType) -> Option<RelationshipType> {
    match (p, c) {
        (KotlinDefinitionType::Class, KotlinDefinitionType::Class) => Some(RelationshipType::ClassToClass),
        (KotlinDefinitionType::Class, KotlinDefinitionType::Interface) => Some(RelationshipType::ClassToInterface),
        (KotlinDefinitionType::Class, KotlinDefinitionType::Function) => Some(RelationshipType::ClassToMethod),
        (KotlinDefinitionType::Class, KotlinDefinitionType::Property) => Some(RelationshipType::ClassToProperty),
        (KotlinDefinitionType::Class, KotlinDefinitionType::Lambda) => Some(RelationshipType::ClassToLambda),
        (KotlinDefinitionType::Class, KotlinDefinitionType::Constructor) => Some(RelationshipType::ClassToConstructor),
        (KotlinDefinitionType::Class, KotlinDefinitionType::EnumEntry) => Some(RelationshipType::ClassToEnumEntry),
        (KotlinDefinitionType::Interface, KotlinDefinitionType::Interface) => Some(RelationshipType::InterfaceToInterface),
        (KotlinDefinitionType::Interface, KotlinDefinitionType::Class) => Some(RelationshipType::InterfaceToClass),
        (KotlinDefinitionType::Interface, KotlinDefinitionType::Function) => Some(RelationshipType::InterfaceToMethod),
        (KotlinDefinitionType::Interface, KotlinDefinitionType::Property) => Some(RelationshipType::InterfaceToProperty),
        (KotlinDefinitionType::Interface, KotlinDefinitionType::Lambda) => Some(RelationshipType::InterfaceToLambda),
        (KotlinDefinitionType::Function, KotlinDefinitionType::Function) => Some(RelationshipType::MethodToMethod),
        (KotlinDefinitionType::Function, KotlinDefinitionType::Property) => Some(RelationshipType::MethodToProperty),
        (KotlinDefinitionType::Function, KotlinDefinitionType::Lambda) => Some(RelationshipType::MethodToLambda),
        (KotlinDefinitionType::Function, KotlinDefinitionType::Class) => Some(RelationshipType::MethodToClass),
        (KotlinDefinitionType::Function, KotlinDefinitionType::Interface) => Some(RelationshipType::MethodToInterface),
        (KotlinDefinitionType::Lambda, KotlinDefinitionType::Lambda) => Some(RelationshipType::LambdaToLambda),
        (KotlinDefinitionType::Lambda, KotlinDefinitionType::Class) => Some(RelationshipType::LambdaToClass),
        (KotlinDefinitionType::Lambda, KotlinDefinitionType::Function) => Some(RelationshipType::LambdaToMethod),
        (KotlinDefinitionType::Lambda, KotlinDefinitionType::Property) => Some(RelationshipType::LambdaToProperty),
        (KotlinDefinitionType::Lambda, KotlinDefinitionType::Interface) => Some(RelationshipType::LambdaToInterface),
        _ => None,
    }
}

/// The relationship from a Kotlin parent to a Kotlin child, after both
/// kinds are simplified; none when either is not a Kotlin kind or simplifies to nothing.
pub open spec fn kotlin_relationship(parent: DefinitionType, child: DefinitionType) -> Option<RelationshipType> {
    match (parent, child) {
        (DefinitionType::Kotlin(p), DefinitionType::Kotlin(c)) => match (kotlin_kind(p), kotlin_kind(c)) {
            (Some(sp), Some(sc)) => kotlin_pair(sp, sc),
            _ => None,
        },
        _ => None,
    }
}

fn kotlin_kind_of(t: KotlinDefinitionType) -> (r: Option<KotlinDefinitionType>)
    ensures
        r == kotlin_kind(t),
{
    match t {
        KotlinDefinitionType::Class => Some(KotlinDefinitionType::Class),
        KotlinDefinitionType::DataClass => Some(KotlinDefinitionType::Class),
        KotlinDefinitionType::ValueClass => Some(KotlinDefinitionType::Class),
        KotlinDefinitionType::AnnotationClass => Some(KotlinDefinitionType::Class),
        KotlinDefinitionType::Object => Some(KotlinDefinitionType::Class),
        KotlinDefinitionType::CompanionObject => Some(KotlinDefinitionType::Class),
        KotlinDefinitionType::Enum => Some(KotlinDefinitionType::Class),
        KotlinDefinitionType::Interface => Some(KotlinDefinitionType::Interface),
        KotlinDefinitionType::EnumEntry => Some(KotlinDefinitionType::EnumEntry),
        KotlinDefinitionType::Constructor => Some(KotlinDefinitionType::Constructor),
        KotlinDefinitionType::Function => Some(KotlinDefinitionType::Function),
        KotlinDefinitionType::Property => Some(KotlinDefinitionType::Property),
        KotlinDefinitionType::Lambda => Some(KotlinDefinitionType::Lambda),
    }
}

fn kotlin_pair_of(p: KotlinDefinitionType, c: KotlinDefinitionType) -> (r: Option<RelationshipType>)
    ensures
        r == kotlin_pair(p, c),
{
    match (p, c) {
        (KotlinDefinitionType::Class, KotlinDefinitionType::Class) => Some(RelationshipType::ClassToClass),
        (KotlinDefinitionType::Class, KotlinDefinitionType::Interface) => Some(RelationshipType::ClassToInterface),
        (KotlinDefinitionType::Class, KotlinDefinitionType::Function) => Some(RelationshipType::ClassToMethod),
        (KotlinDefinitionType::Class, KotlinDefinitionType::Property) => Some(RelationshipType::ClassToProperty),
        (KotlinDefinitionType::Class, KotlinDefinitionType::Lambda) => Some(RelationshipType::ClassToLambda),
        (KotlinDefinitionType::Class, KotlinDefinitionType::Constructor) => Some(RelationshipType::ClassToConstructor),
        (KotlinDefinitionType::Class, KotlinDefinitionType::EnumEntry) => Some(RelationshipType::ClassToEnumEntry),
        (KotlinDefinitionType::Interface, KotlinDefinitionType::Interface) => Some(RelationshipType::InterfaceToInterface),
        (KotlinDefinitionType::Interface, KotlinDefinitionType::Class) => Some(RelationshipType::InterfaceToClass),
        (KotlinDefinitionType::Interface, KotlinDefinitionType::Function) => Some(RelationshipType::InterfaceToMethod),
        (KotlinDefinitionType::Interface, KotlinDefinitionType::Property) => Some(RelationshipType::InterfaceToProperty),
        (KotlinDefinitionType::Interface, KotlinDefinitionType::Lambda) => Some(RelationshipType::InterfaceToLambda),
        (KotlinDefinitionType::Function, KotlinDefinitionType::Function) => Some(RelationshipType::MethodToMethod),
        (KotlinDefinitionType::Function, KotlinDefinitionType::Property) => Some(RelationshipType::MethodToProperty),
        (KotlinDefinitionType::Function, KotlinDefinitionType::Lambda) => Some(RelationshipType::MethodToLambda),
        (KotlinDefinitionType::Function, KotlinDefinitionType::Class) => Some(RelationshipType::MethodToClass),
        (KotlinDefinitionType::Function, KotlinDefinitionType::Interface) => Some(RelationshipType::MethodToInterface),
        (KotlinDefinitionType::Lambda, KotlinDefinitionType::Lambda) => Some(RelationshipType::LambdaToLambda),
        (KotlinDefinitionType::Lambda, KotlinDefinitionType::Class) => Some(RelationshipType::LambdaToClass),
        (KotlinDefinitionType::Lambda, KotlinDefinitionType::Function) => Some(RelationshipType::LambdaToMethod),
        (KotlinDefinitionType::Lambda, KotlinDefinitionType::Property) => Some(RelationshipType::LambdaToProperty),
        (KotlinDefinitionType::Lambda, KotlinDefinitionType::Interface) => Some(RelationshipType::LambdaToInterface),
        _ => None,
    }
}

/// The relationship from a Kotlin parent to a Kotlin child.
pub fn kotlin_relationship_type(parent: &DefinitionType, child: &DefinitionType) -> (r: Option<RelationshipType>)
    ensures
        r == kotlin_relationship(*parent, *child),
{
    match (*parent, *child) {
        (DefinitionType::Kotlin(p), DefinitionType::Kotlin(c)) => match (kotlin_kind_of(p), kotlin_kind_of(c)) {
            (Some(sp), Some(sc)) => kotlin_pair_of(sp, sc),
            _ => None,
        },
        _ => None,
    }
}

/// Whether a Kotlin name is top-level, that is, defined by its file directly.
pub open spec fn kotlin_top_level(parts: Seq<FqnPart>) -> bool {
    parts.len() == 1 || (parts.len() == 2 && parts[0].node_type == FqnPartKind::Package)
}

/// Analyzer for Kotlin files.
pub struct KotlinAnalyzer;

impl KotlinAnalyzer {
    pub fn new() -> (a: Self) {
        KotlinAnalyzer
    }

    /// Whether a definition with this name is defined by its file directly.
    pub fn is_top_level_definition(&self, fqn: &Vec<FqnPart>) -> (r: bool)
        ensures
            r == kotlin_top_level(fqn@),
    {
        fqn.len() == 1 || (fqn.len() == 2 && fqn[0].node_type == FqnPartKind::Package)
    }
}

impl KotlinAnalyzer {
    /// Files the definitions parsed from one file, as `processed` states
    /// under the Kotlin rules.
    pub fn process_definitions(
        &self,
        defs: &Vec<ParsedDefinition>,
        relative_file_path: &str,
        definition_map: &mut DefinitionMap,
        file_definition_relationships: &mut Vec<FileDefinitionRelationship>,
    )
        requires
            keys_unique(old(definition_map)@),
        ensures
            keys_unique(final(definition_map)@),
            (entry_views(final(definition_map)@), file_definition_views(final(file_definition_relationships)@))
                == processed(
                    DefinitionRules::Kotlin,
                    relative_file_path@,
                    (entry_views(old(definition_map)@), file_definition_views(old(file_definition_relationships)@)),
                    defs@,
                ),
    {
        process_definitions(DefinitionRules::Kotlin, defs, relative_file_path, definition_map, file_definition_relationships)
    }

    /// Files the imports parsed from one file, as `processed_imports`
    /// states under the Kotlin rules.
    pub fn process_imports(
        &self,
        imports: &Vec<ParsedImport>,
        relative_file_path: &str,
        imported_symbol_map: &mut ImportedSymbolMap,
        file_import_relationships: &mut Vec<FileImportedSymbolRelationship>,
    )
        requires
            import_keys_unique(old(imported_symbol_map)@),
        ensures
            import_keys_unique(final(imported_symbol_map)@),
            (final(imported_symbol_map)@, final(file_import_relationships)@.map_values(|r: FileImportedSymbolRelationship| file_import_view(r)))
                == processed_imports(
                    DefinitionRules::Kotlin,
                    relative_file_path@,
                    (old(imported_symbol_map)@, old(file_import_relationships)@.map_values(|r: FileImportedSymbolRelationship| file_import_view(r))),
                    imports@,
                ),
    {
        process_imports(DefinitionRules::Kotlin, imports, relative_file_path, imported_symbol_map, file_import_relationships)
    }

    /// Appends the relationship from each definition's parent to the
    /// definition, under the Kotlin rules.
    pub fn add_definition_relationships(
        &self,
        definition_map: &DefinitionMap,
        definition_relationships: &mut Vec<DefinitionRelationship>,
    )
        requires
            keys_unique(definition_map@),
        ensures
            final(definition_relationships)@.map_values(|r: DefinitionRelationship| relationship_view(r))
                == old(definition_relationships)@.map_values(|r: DefinitionRelationship| relationship_view(r))
                + child_relationships(DefinitionRules::Kotlin, definition_map@),
    {
        add_parent_relationships(DefinitionRules::Kotlin, definition_map, definition_relationships)
    }
}

} // verus!
