//! Python definitions: how kinds of definition simplify and which parent-child
//! pairs become graph relationships.

use vstd::prelude::*;
use crate::analysis::types::{DefinitionType, FqnPart, PythonDefinitionType};
use crate::graph::{relationship_name, RelationshipType};
use crate::analysis::import_map::{
    add_definition_import_relationships, definition_import_view, definition_imports, file_import_view,
    import_keys_unique, process_imports, processed_imports, ImportedSymbolMap, ParsedImport,
};
use crate::analysis::types::{DefinitionImportedSymbolRelationship, FileImportedSymbolRelationship};
use crate::analysis::definition_map::{add_parent_relationships, child_relationships, keys_unique, relationship_view, DefinitionMap};
use crate::analysis::languages::definitions::{
    entry_views, file_definition_views, process_definitions, processed, ParsedDefinition,
};
use crate::analysis::languages::DefinitionRules;
use crate::analysis::types::{DefinitionRelationship, FileDefinitionRelationship};

verus! {

/// The kind a Python definition counts as when relationships are drawn.
pub open spec fn python_kind(t: PythonDefinitionType) -> Option<PythonDefinitionType> {
    match t {
        PythonDefinitionType::Class => Some(PythonDefinitionType::Class),
        PythonDefinitionType::DecoratedClass => Some(PythonDefinitionType::Class),
        PythonDefinitionType::Method => Some(PythonDefinitionType::Method),
        PythonDefinitionType::AsyncMethod => Some(PythonDefinitionType::Method),
        PythonDefinitionType::DecoratedMethod => Some(PythonDefinitionType::Method),
        PythonDefinitionType::DecoratedAsyncMethod => Some(PythonDefinitionType::Method),
        PythonDefinitionType::Function => Some(PythonDefinitionType::Function),
        PythonDefinitionType::AsyncFunction => Some(PythonDefinitionType::Function),
        PythonDefinitionType::DecoratedFunction => Some(PythonDefinitionType::Function),
        PythonDefinitionType::DecoratedAsyncFunction => Some(PythonDefinitionType::Function),
        PythonDefinitionType::Lambda => Some(PythonDefinitionType::Lambda),
    }
}

/// The relationship between two simplified Python kinds, if any.
pub open spec fn python_pair(p: PythonDefinitionType, c: PythonDefinitionType) -> Option<RelationshipType> {
    match (p, c) {
        (PythonDefinitionType::Class, PythonDefinitionType::Class) => Some(RelationshipType::ClassToClass),
        (PythonDefinitionType::Class, PythonDefinitionType::Method) => Some(RelationshipType::ClassToMethod),
        (PythonDefinitionType::Class, PythonDefinitionType::Lambda) => Some(RelationshipType::ClassToLambda),
        (PythonDefinitionType::Method, PythonDefinitionType::Class) => Some(RelationshipType::MethodToClass),
        (PythonDefinitionType::Method, PythonDefinitionType::Function) => Some(RelationshipType::MethodToFunction),
        (PythonDefinitionType::Method, PythonDefinitionType::Lambda) => Some(RelationshipType::MethodToLambda),
        (PythonDefinitionType::Function, PythonDefinitionType::Function) => Some(RelationshipType::FunctionToFunction),
        (PythonDefinitionType::Function, PythonDefinitionType::Class) => Some(RelationshipType::FunctionToClass),
        (PythonDefinitionType::Function, PythonDefinitionType::Lambda) => Some(RelationshipType::FunctionToLambda),
        (PythonDefinitionType::Lambda, PythonDefinitionType::Lambda) => Some(RelationshipType::LambdaToLambda),
        (PythonDefinitionType::Lambda, PythonDefinitionType::Class) => Some(RelationshipType::LambdaToClass),
        (PythonDefinitionType::Lambda, PythonDefinitionType::Function) => Some(RelationshipType::LambdaToFunction),
        _ => None,
    }
}

/// The relationship from a Python parent to a Python child, after both
/// kinds are simplified; none when either is not a Python kind or simplifies to nothing.
pub open spec fn python_relationship(parent: DefinitionType, child: DefinitionType) -> Option<RelationshipType> {
    match (parent, child) {
        (DefinitionType::Python(p), DefinitionType::Python(c)) => match (python_kind(p), python_kind(c)) {
            (Some(sp), Some(sc)) => python_pair(sp, sc),
            _ => None,
        },
        _ => None,
    }
}

fn python_kind_of(t: PythonDefinitionType) -> (r: Option<PythonDefinitionType>)
    ensures
        r == python_kind(t),
{
    match t {
        PythonDefinitionType::Class => Some(PythonDefinitionType::Class),
        PythonDefinitionType::DecoratedClass => Some(PythonDefinitionType::Class),
        PythonDefinitionType::Method => Some(PythonDefinitionType::Method),
        PythonDefinitionType::AsyncMethod => Some(PythonDefinitionType::Method),
        PythonDefinitionType::DecoratedMethod => Some(PythonDefinitionType::Method),
        PythonDefinitionType::DecoratedAsyncMethod => Some(PythonDefinitionType::Method),
        PythonDefinitionType::Function => Some(PythonDefinitionType::Function),
        PythonDefinitionType::AsyncFunction => Some(PythonDefinitionType::Function),
        PythonDefinitionType::DecoratedFunction => Some(PythonDefinitionType::Function),
        PythonDefinitionType::DecoratedAsyncFunction => Some(PythonDefinitionType::Function),
        PythonDefinitionType::Lambda => Some(PythonDefinitionType::Lambda),
    }
}

fn python_pair_of(p: PythonDefinitionType, c: PythonDefinitionType) -> (r: Option<RelationshipType>)
    ensures
        r == python_pair(p, c),
{
    match (p, c) {
        (PythonDefinitionType::Class, PythonDefinitionType::Class) => Some(RelationshipType::ClassToClass),
        (PythonDefinitionType::Class, PythonDefinitionType::Method) => Some(RelationshipType::ClassToMethod),
        (PythonDefinitionType::Class, PythonDefinitionType::Lambda) => Some(RelationshipType::ClassToLambda),
        (PythonDefinitionType::Method, PythonDefinitionType::Class) => Some(RelationshipType::MethodToClass),
        (PythonDefinitionType::Method, PythonDefinitionType::Function) => Some(RelationshipType::MethodToFunction),
        (PythonDefinitionType::Method, PythonDefinitionType::Lambda) => Some(RelationshipType::MethodToLambda),
        (PythonDefinitionType::Function, PythonDefinitionType::Function) => Some(RelationshipType::FunctionToFunction),
        (PythonDefinitionType::Function, PythonDefinitionType::Class) => Some(RelationshipType::FunctionToClass),
        (PythonDefinitionType::Function, PythonDefinitionType::Lambda) => Some(RelationshipType::FunctionToLambda),
        (PythonDefinitionType::Lambda, PythonDefinitionType::Lambda) => Some(RelationshipType::LambdaToLambda),
        (PythonDefinitionType::Lambda, PythonDefinitionType::Class) => Some(RelationshipType::LambdaToClass),
        (PythonDefinitionType::Lambda, PythonDefinitionType::Function) => Some(RelationshipType::LambdaToFunction),
        _ => None,
    }
}

/// The relationship from a Python parent to a Python child.
pub fn python_relationship_type(parent: &DefinitionType, child: &DefinitionType) -> (r: Option<RelationshipType>)
    ensures
        r == python_relationship(*parent, *child),
{
    match (*parent, *child) {
        (DefinitionType::Python(p), DefinitionType::Python(c)) => match (python_kind_of(p), python_kind_of(c)) {
            (Some(sp), Some(sc)) => python_pair_of(sp, sc),
            _ => None,
        },
        _ => None,
    }
}

/// The word a Python definition kind is named by in relationship names.
pub open spec fn python_kind_word(t: PythonDefinitionType) -> Seq<char> {
    match t {
        PythonDefinitionType::Class | PythonDefinitionType::DecoratedClass => "CLASS"@,
        PythonDefinitionType::Method | PythonDefinitionType::AsyncMethod | PythonDefinitionType::DecoratedMethod
        | PythonDefinitionType::DecoratedAsyncMethod => "METHOD"@,
        PythonDefinitionType::Function | PythonDefinitionType::AsyncFunction | PythonDefinitionType::DecoratedFunction
        | PythonDefinitionType::DecoratedAsyncFunction => "FUNCTION"@,
        PythonDefinitionType::Lambda => "LAMBDA"@,
    }
}

/// The relationship from a Python parent to a Python child is named by
/// the two kinds, `PARENT_TO_CHILD` (a method in a class is
/// `CLASS_TO_METHOD`). Every pair of kinds is related except a method
/// under anything but a class and a function directly in a class (which
/// is a method). A definition of another language is related to none.
pub proof fn lemma_python_relationship_names_kinds(p: PythonDefinitionType, c: PythonDefinitionType)
    ensures
        python_relationship(DefinitionType::Python(p), DefinitionType::Python(c)) matches Some(t)
            ==> relationship_name(t) == python_kind_word(p) + "_TO_"@ + python_kind_word(c),
        python_relationship(DefinitionType::Python(p), DefinitionType::Python(c)) is Some <==> !(
            (python_kind_word(c) == "METHOD"@ && python_kind_word(p) != "CLASS"@)
            || (python_kind_word(p) == "CLASS"@ && python_kind_word(c) == "FUNCTION"@)
        ),
        forall|other: DefinitionType| !(other is Python) ==> python_relationship(other, DefinitionType::Python(c)) is None
            && python_relationship(DefinitionType::Python(p), other) is None,
{
    reveal_strlit("CLASS");
    reveal_strlit("METHOD");
    reveal_strlit("FUNCTION");
    reveal_strlit("LAMBDA");
    reveal_strlit("_TO_");
    reveal_strlit("CLASS_TO_CLASS");
    reveal_strlit("CLASS_TO_METHOD");
    reveal_strlit("CLASS_TO_LAMBDA");
    reveal_strlit("METHOD_TO_CLASS");
    reveal_strlit("METHOD_TO_FUNCTION");
    reveal_strlit("METHOD_TO_LAMBDA");
    reveal_strlit("FUNCTION_TO_FUNCTION");
    reveal_strlit("FUNCTION_TO_CLASS");
    reveal_strlit("FUNCTION_TO_LAMBDA");
    reveal_strlit("LAMBDA_TO_LAMBDA");
    reveal_strlit("LAMBDA_TO_CLASS");
    reveal_strlit("LAMBDA_TO_FUNCTION");
    let wp = python_kind_word(p);
    let wc = python_kind_word(c);
    assert(wp == "CLASS"@ || wp == "METHOD"@ || wp == "FUNCTION"@ || wp == "LAMBDA"@);
    assert(wc == "CLASS"@ || wc == "METHOD"@ || wc == "FUNCTION"@ || wc == "LAMBDA"@);
    assert("CLASS"@.len() == 5 && "METHOD"@.len() == 6 && "FUNCTION"@.len() == 8 && "LAMBDA"@.len() == 6);
    assert("LAMBDA"@[0] != "METHOD"@[0]);
    assert("CLASS"@ != "METHOD"@ && "CLASS"@ != "FUNCTION"@ && "METHOD"@ != "FUNCTION"@ && "LAMBDA"@ != "METHOD"@);
    assert("CLASS"@ + "_TO_"@ + "CLASS"@ =~= "CLASS_TO_CLASS"@);
    assert("CLASS"@ + "_TO_"@ + "METHOD"@ =~= "CLASS_TO_METHOD"@);
    assert("CLASS"@ + "_TO_"@ + "LAMBDA"@ =~= "CLASS_TO_LAMBDA"@);
    assert("METHOD"@ + "_TO_"@ + "CLASS"@ =~= "METHOD_TO_CLASS"@);
    assert("METHOD"@ + "_TO_"@ + "FUNCTION"@ =~= "METHOD_TO_FUNCTION"@);
    assert("METHOD"@ + "_TO_"@ + "LAMBDA"@ =~= "METHOD_TO_LAMBDA"@);
    assert("FUNCTION"@ + "_TO_"@ + "FUNCTION"@ =~= "FUNCTION_TO_FUNCTION"@);
    assert("FUNCTION"@ + "_TO_"@ + "CLASS"@ =~= "FUNCTION_TO_CLASS"@);
    assert("FUNCTION"@ + "_TO_"@ + "LAMBDA"@ =~= "FUNCTION_TO_LAMBDA"@);
    assert("LAMBDA"@ + "_TO_"@ + "LAMBDA"@ =~= "LAMBDA_TO_LAMBDA"@);
    assert("LAMBDA"@ + "_TO_"@ + "CLASS"@ =~= "LAMBDA_TO_CLASS"@);
    assert("LAMBDA"@ + "_TO_"@ + "FUNCTION"@ =~= "LAMBDA_TO_FUNCTION"@);
}

/// Whether a Python name is top-level, that is, defined by its file directly.
pub open spec fn python_top_level(parts: Seq<FqnPart>) -> bool {
    parts.len() == 1
}

/// Analyzer for Python files.
pub struct PythonAnalyzer;

impl PythonAnalyzer {
    pub fn new() -> (a: Self) {
        PythonAnalyzer
    }

    /// Whether a definition with this name is defined by its file directly.
    pub fn is_top_level_definition(&self, fqn: &Vec<FqnPart>) -> (r: bool)
        ensures
            r == python_top_level(fqn@),
    {
        fqn.len() == 1
    }
}

impl PythonAnalyzer {
    /// Files the definitions parsed from one file, as `processed` states
    /// under the Python rules.
    pub fn process_definitions(
        &self,
        defs: &Vec<ParsedDefinition>,
        relative_file_path: &str,
        definition_map: &mut DefinitionMap,
        file_definition_relationships: &mut Vec<FileDefinitionRelationship>,
    )
        requires
            keys_unique(old(definition_map)@),
        ensures
            keys_unique(final(definition_map)@),
            (entry_views(final(definition_map)@), file_definition_views(final(file_definition_relationships)@))
                == processed(
                    DefinitionRules::Python,
                    relative_file_path@,
                    (entry_views(old(definition_map)@), file_definition_views(old(file_definition_relationships)@)),
                    defs@,
                ),
    {
        process_definitions(DefinitionRules::Python, defs, relative_file_path, definition_map, file_definition_relationships)
    }

    /// Files the imports parsed from one file, as `processed_imports`
    /// states under the Python rules.
    pub fn process_imports(
        &self,
        imports: &Vec<ParsedImport>,
        relative_file_path: &str,
        imported_symbol_map: &mut ImportedSymbolMap,
        file_import_relationships: &mut Vec<FileImportedSymbolRelationship>,
    )
        requires
            import_keys_unique(old(imported_symbol_map)@),
        ensures
            import_keys_unique(final(imported_symbol_map)@),
            (final(imported_symbol_map)@, final(file_import_relationships)@.map_values(|r: FileImportedSymbolRelationship| file_import_view(r)))
                == processed_imports(
                    DefinitionRules::Python,
                    relative_file_path@,
                    (old(imported_symbol_map)@, old(file_import_relationships)@.map_values(|r: FileImportedSymbolRelationship| file_import_view(r))),
                    imports@,
                ),
    {
        process_imports(DefinitionRules::Python, imports, relative_file_path, imported_symbol_map, file_import_relationships)
    }

    /// Appends the relationship from each definition's parent to the
    /// definition, under the Python rules, and from each definition to the
    /// symbols imported inside it.
    pub fn add_definition_relationships(
        &self,
        definition_map: &DefinitionMap,
        imported_symbol_map: &ImportedSymbolMap,
        definition_relationships: &mut Vec<DefinitionRelationship>,
        definition_imported_symbol_relationships: &mut Vec<DefinitionImportedSymbolRelationship>,
    )
        requires
            keys_unique(definition_map@),
            import_keys_unique(imported_symbol_map@),
        ensures
            final(definition_relationships)@.map_values(|r: DefinitionRelationship| relationship_view(r))
                == old(definition_relationships)@.map_values(|r: DefinitionRelationship| relationship_view(r))
                + child_relationships(DefinitionRules::Python, definition_map@),
            final(definition_imported_symbol_relationships)@.map_values(|r: DefinitionImportedSymbolRelationship| definition_import_view(r))
                == old(definition_imported_symbol_relationships)@.map_values(|r: DefinitionImportedSymbolRelationship| definition_import_view(r))
                + definition_imports(definition_map@, imported_symbol_map@),
    {
        add_definition_import_relationships(definition_map, imported_symbol_map, definition_imported_symbol_relationships);
        add_parent_relationships(DefinitionRules::Python, definition_map, definition_relationships)
    }
}

} // verus!
