//! Java definitions: how kinds of definition simplify and which parent-child
//! pairs become graph relationships. Constructors count as methods.

use vstd::prelude::*;
use crate::analysis::types::{DefinitionType, FqnPart, FqnPartKind, JavaDefinitionType};
use crate::graph::RelationshipType;
use crate::analysis::import_map::{
    add_definition_import_relationships, definition_import_view, definition_imports, file_import_view,
    import_keys_unique, process_imports, processed_imports, ImportedSymbolMap, ParsedImport,
};
use crate::analysis::types::{DefinitionImportedSymbolRelationship, FileImportedSymbolRelationship};
use crate::analysis::definition_map::{add_parent_relationships, child_relationships, keys_unique, relationship_view, DefinitionMap};
use crate::analysis::languages::definitions::{
    entry_views, file_definition_views, process_definitions, processed, ParsedDefinition,
};
use crate::analysis::languages::DefinitionRules;
use crate::analysis::types::{DefinitionRelationship, FileDefinitionRelationship};

verus! {

/// The kind a Java definition counts as when relationships are drawn.
pub open spec fn java_kind(t: JavaDefinitionType) -> Option<JavaDefinitionType> {
    match t {
        JavaDefinitionType::Package => None,
        JavaDefinitionType::Class => Some(JavaDefinitionType::Class),
        JavaDefinitionType::Enum => Some(JavaDefinitionType::Class),
        JavaDefinitionType::AnnotationDeclaration => Some(JavaDefinitionType::Class),
        JavaDefinitionType::Record => Some(JavaDefinitionType::Class),
        JavaDefinitionType::Interface => Some(JavaDefinitionType::Interface),
        JavaDefinitionType::EnumConstant => Some(JavaDefinitionType::EnumConstant),
        JavaDefinitionType::Method => Some(JavaDefinitionType::Method),
        JavaDefinitionType::Constructor => Some(JavaDefinitionType::Method),
        JavaDefinitionType::Lambda => Some(JavaDefinitionType::Lambda),
    }
}

/// The relationship between two simplified Java kinds, if any.
pub open spec fn java_pair(p: JavaDefinitionType, c: JavaDefinitionType) -> Option<RelationshipType> {
    match (p, c) {
        (JavaDefinitionType::Class, JavaDefinitionType::Class) => Some(RelationshipType::ClassToClass),
        (JavaDefinitionType::Class, JavaDefinitionType::Interface) => Some(RelationshipType::ClassToInterface),
        (JavaDefinitionType::Class, JavaDefinitionType::EnumConstant) => Some(RelationshipType::ClassToEnumEntry),
        (JavaDefinitionType::Class, JavaDefinitionType::Method) => Some(RelationshipType::ClassToMethod),
        (JavaDefinitionType::Class, JavaDefinitionType::Lambda) => Some(RelationshipType::ClassToLambda),
        (JavaDefinitionType::Interface, JavaDefinitionType::Interface) => Some(RelationshipType::InterfaceToInterface),
        (JavaDefinitionType::Interface, JavaDefinitionType::Class) => Some(RelationshipType::InterfaceToClass),
        (JavaDefinitionType::Interface, JavaDefinitionType::Method) => Some(RelationshipType::InterfaceToMethod),
        (JavaDefinitionType::Interface, JavaDefinitionType::Lambda) => Some(RelationshipType::InterfaceToLambda),
        (JavaDefinitionType::Method, JavaDefinitionType::Method) => Some(RelationshipType::MethodToMethod),
        (JavaDefinitionType::Method, JavaDefinitionType::Class) => Some(RelationshipType::MethodToClass),
        (JavaDefinitionType::Method, JavaDefinitionType::Interface) => Some(RelationshipType::MethodToInterface),
        (JavaDefinitionType::Method, JavaDefinitionType::Lambda) => Some(RelationshipType::MethodToLambda),
        (JavaDefinitionType::Lambda, JavaDefinitionType::Lambda) => Some(RelationshipType::LambdaToLambda),
        (JavaDefinitionType::Lambda, JavaDefinitionType::Class) => Some(RelationshipType::LambdaToClass),
        (JavaDefinitionType::Lambda, JavaDefinitionType::Method) => Some(RelationshipType::LambdaToMethod),
        (JavaDefinitionType::Lambda, JavaDefinitionType::Interface) => Some(RelationshipType::LambdaToInterface),
        _ => None,
    }
}

/// The relationship from a Java parent to a Java child, after both
/// kinds are simplified; none when either is not a Java kind or simplifies to nothing.
pub open spec fn java_relationship(parent: DefinitionType, child: DefinitionType) -> Option<RelationshipType> {
    match (parent, child) {
        (DefinitionType::Java(p), DefinitionType::Java(c)) => match (java_kind(p), java_kind(c)) {
            (Some(sp), Some(sc)) => java_pair(sp, sc),
            _ => None,
        },
        _ => None,
    }
}

fn java_kind_of(t: JavaDefinitionType) -> (r: Option<JavaDefinitionType>)
    ensures
        r == java_kind(t),
{
    match t {
        JavaDefinitionType::Package => None,
        JavaDefinitionType::Class => Some(JavaDefinitionType::Class),
        JavaDefinitionType::Enum => Some(JavaDefinitionType::Class),
        JavaDefinitionType::AnnotationDeclaration => Some(JavaDefinitionType::Class),
        JavaDefinitionType::Record => Some(JavaDefinitionType::Class),
        JavaDefinitionType::Interface => Some(JavaDefinitionType::Interface),
        JavaDefinitionType::EnumConstant => Some(JavaDefinitionType::EnumConstant),
        JavaDefinitionType::Method => Some(JavaDefinitionType::Method),
        JavaDefinitionType::Constructor => Some(JavaDefinitionType::Method),
        JavaDefinitionType::Lambda => Some(JavaDefinitionType::Lambda),
    }
}

fn java_pair_of(p: JavaDefinitionType, c: JavaDefinitionType) -> (r: Option<RelationshipType>)
    ensures
        r == java_pair(p, c),
{
    match (p, c) {
        (JavaDefinitionType::Class, JavaDefinitionType::Class) => Some(RelationshipType::ClassToClass),
        (JavaDefinitionType::Class, JavaDefinitionType::Interface) => Some(RelationshipType::ClassToInterface),
        (JavaDefinitionType::Class, JavaDefinitionType::EnumConstant) => Some(RelationshipType::ClassToEnumEntry),
        (JavaDefinitionType::Class, JavaDefinitionType::Method) => Some(RelationshipType::ClassToMethod),
        (JavaDefinitionType::Class, JavaDefinitionType::Lambda) => Some(RelationshipType::ClassToLambda),
        (JavaDefinitionType::Interface, JavaDefinitionType::Interface) => Some(RelationshipType::InterfaceToInterface),
        (JavaDefinitionType::Interface, JavaDefinitionType::Class) => Some(RelationshipType::InterfaceToClass),
        (JavaDefinitionType::Interface, JavaDefinitionType::Method) => Some(RelationshipType::InterfaceToMethod),
        (JavaDefinitionType::Interface, JavaDefinitionType::Lambda) => Some(RelationshipType::InterfaceToLambda),
        (JavaDefinitionType::Method, JavaDefinitionType::Method) => Some(RelationshipType::MethodToMethod),
        (JavaDefinitionType::Method, JavaDefinitionType::Class) => Some(RelationshipType::MethodToClass),
        (JavaDefinitionType::Method, JavaDefinitionType::Interface) => Some(RelationshipType::MethodToInterface),
        (JavaDefinitionType::Method, JavaDefinitionType::Lambda) => Some(RelationshipType::MethodToLambda),
        (JavaDefinitionType::Lambda, JavaDefinitionType::Lambda) => Some(RelationshipType::LambdaToLambda),
        (JavaDefinitionType::Lambda, JavaDefinitionType::Class) => Some(RelationshipType::LambdaToClass),
        (JavaDefinitionType::Lambda, JavaDefinitionType::Method) => Some(RelationshipType::LambdaToMethod),
        (JavaDefinitionType::Lambda, JavaDefinitionType::Interface) => Some(RelationshipType::LambdaToInterface),
        _ => None,
    }
}

/// The relationship from a Java parent to a Java child.
pub fn java_relationship_type(parent: &DefinitionType, child: &DefinitionType) -> (r: Option<RelationshipType>)
    ensures
        r == java_relationship(*parent, *child),
{
    match (*parent, *child) {
        (DefinitionType::Java(p), DefinitionType::Java(c)) => match (java_kind_of(p), java_kind_of(c)) {
            (Some(sp), Some(sc)) => java_pair_of(sp, sc),
            _ => None,
        },
        _ => None,
    }
}

/// Whether a Java name is top-level, that is, defined by its file directly.
pub open spec fn java_top_level(parts: Seq<FqnPart>) -> bool {
    parts.len() == 1 || (parts.len() == 2 && parts[0].node_type == FqnPartKind::Package)
}

/// Analyzer for Java files.
pub struct JavaAnalyzer;

impl JavaAnalyzer {
    pub fn new() -> (a: Self) {
        JavaAnalyzer
    }

    /// Whether a definition with this name is defined by its file directly.
    pub fn is_top_level_definition(&self, fqn: &Vec<FqnPart>) -> (r: bool)
        ensures
            r == java_top_level(fqn@),
    {
        fqn.len() == 1 || (fqn.len() == 2 && fqn[0].node_type == FqnPartKind::Package)
    }
}

impl JavaAnalyzer {
    /// Files the definitions parsed from one file, as `processed` states
    /// under the Java rules.
    pub fn process_definitions(
        &self,
        defs: &Vec<ParsedDefinition>,
        relative_file_path: &str,
        definition_map: &mut DefinitionMap,
        file_definition_relationships: &mut Vec<FileDefinitionRelationship>,
    )
        requires
            keys_unique(old(definition_map)@),
        ensures
            keys_unique(final(definition_map)@),
            (entry_views(final(definition_map)@), file_definition_views(final(file_definition_relationships)@))
                == processed(
                    DefinitionRules::Java,
                    relative_file_path@,
                    (entry_views(old(definition_map)@), file_definition_views(old(file_definition_relationships)@)),
                    defs@,
                ),
    {
        process_definitions(DefinitionRules::Java, defs, relative_file_path, definition_map, file_definition_relationships)
    }

    /// Files the imports parsed from one file, as `processed_imports`
    /// states under the Java rules.
    pub fn process_imports(
        &self,
        imports: &Vec<ParsedImport>,
        relative_file_path: &str,
        imported_symbol_map: &mut ImportedSymbolMap,
        file_import_relationships: &mut Vec<FileImportedSymbolRelationship>,
    )
        requires
            import_keys_unique(old(imported_symbol_map)@),
        ensures
            import_keys_unique(final(imported_symbol_map)@),
            (final(imported_symbol_map)@, final(file_import_relationships)@.map_values(|r: FileImportedSymbolRelationship| file_import_view(r)))
                == processed_imports(
                    DefinitionRules::Java,
                    relative_file_path@,
                    (old(imported_symbol_map)@, old(file_import_relationships)@.map_values(|r: FileImportedSymbolRelationship| file_import_view(r))),
                    imports@,
                ),
    {
        process_imports(DefinitionRules::Java, imports, relative_file_path, imported_symbol_map, file_import_relationships)
    }

    /// Appends the relationship from each definition's parent to the
    /// definition, under the Java rules.
    pub fn add_definition_relationships(
        &self,
        definition_map: &DefinitionMap,
        definition_relationships: &mut Vec<DefinitionRelationship>,
    )
        requires
            keys_unique(definition_map@),
        ensures
            final(definition_relationships)@.map_values(|r: DefinitionRelationship| relationship_view(r))
                == old(definition_relationships)@.map_values(|r: DefinitionRelationship| relationship_view(r))
                + child_relationships(DefinitionRules::Java, definition_map@),
    {
        add_parent_relationships(DefinitionRules::Java, definition_map, definition_relationships)
    }
}

} // verus!
