//! Rust definitions: which parent-child pairs become graph relationships.

use vstd::prelude::*;
use crate::analysis::definition_map::{
    join_prefix, joined_prefix, keys_unique, relationship_view, DefinitionEntry, DefinitionMap,
    DefinitionRelationshipView,
};
use crate::analysis::languages::definitions::{
    entry_views, file_definition_views, fqn_view, process_definitions, processed, ParsedDefinition,
};
use crate::analysis::types::FileDefinitionRelationship;
use crate::analysis::languages::DefinitionRules;
use crate::analysis::types::{DefinitionRelationship, DefinitionType, FqnPart, FqnType, RustDefinitionType};
use crate::graph::RelationshipType;
use crate::analysis::import_map::{
    add_definition_import_relationships, definition_import_view, definition_imports, file_import_view,
    import_keys_unique, process_imports, processed_imports, ImportedSymbolMap, ParsedImport,
};
use crate::analysis::types::{DefinitionImportedSymbolRelationship, FileImportedSymbolRelationship};
use crate::seq_util::{filter_map, lemma_filter_map_step};
use crate::text::str_eq;

verus! {

/// The relationship from a Rust parent to a Rust child: a module holds
/// anything; structs and unions hold fields, enums variants, traits
/// methods, and impls methods and associated functions.
pub open spec fn rust_relationship(parent: DefinitionType, child: DefinitionType) -> Option<RelationshipType> {
    match (parent, child) {
        (DefinitionType::Rust(RustDefinitionType::Module), _) => Some(RelationshipType::ModuleToSingletonMethod),
        (DefinitionType::Rust(RustDefinitionType::Struct), DefinitionType::Rust(RustDefinitionType::Field)) => Some(RelationshipType::ClassToMethod),
        (DefinitionType::Rust(RustDefinitionType::Enum), DefinitionType::Rust(RustDefinitionType::Variant)) => Some(RelationshipType::ClassToMethod),
        (DefinitionType::Rust(RustDefinitionType::Trait), DefinitionType::Rust(RustDefinitionType::Method)) => Some(RelationshipType::ClassToMethod),
        (DefinitionType::Rust(RustDefinitionType::Impl), DefinitionType::Rust(RustDefinitionType::Method)) => Some(RelationshipType::ClassToMethod),
        (DefinitionType::Rust(RustDefinitionType::Impl), DefinitionType::Rust(RustDefinitionType::AssociatedFunction)) => Some(RelationshipType::ClassToMethod),
        (DefinitionType::Rust(RustDefinitionType::Union), DefinitionType::Rust(RustDefinitionType::Field)) => Some(RelationshipType::ClassToMethod),
        _ => None,
    }
}

/// The relationship from a Rust parent to a Rust child.
pub fn rust_relationship_type(parent: &DefinitionType, child: &DefinitionType) -> (r: Option<RelationshipType>)
    ensures
        r == rust_relationship(*parent, *child),
{
    match (*parent, *child) {
        (DefinitionType::Rust(RustDefinitionType::Module), _) => Some(RelationshipType::ModuleToSingletonMethod),
        (DefinitionType::Rust(RustDefinitionType::Struct), DefinitionType::Rust(RustDefinitionType::Field)) => Some(RelationshipType::ClassToMethod),
        (DefinitionType::Rust(RustDefinitionType::Enum), DefinitionType::Rust(RustDefinitionType::Variant)) => Some(RelationshipType::ClassToMethod),
        (DefinitionType::Rust(RustDefinitionType::Trait), DefinitionType::Rust(RustDefinitionType::Method)) => Some(RelationshipType::ClassToMethod),
        (DefinitionType::Rust(RustDefinitionType::Impl), DefinitionType::Rust(RustDefinitionType::Method)) => Some(RelationshipType::ClassToMethod),
        (DefinitionType::Rust(RustDefinitionType::Impl), DefinitionType::Rust(RustDefinitionType::AssociatedFunction)) => Some(RelationshipType::ClassToMethod),
        (DefinitionType::Rust(RustDefinitionType::Union), DefinitionType::Rust(RustDefinitionType::Field)) => Some(RelationshipType::ClassToMethod),
        _ => None,
    }
}

/// The entry itself when it holds a Rust definition.
pub open spec fn rust_entry(e: DefinitionEntry) -> Option<DefinitionEntry> {
    if fqn_view(e.fqn_type).0 == DefinitionRules::Rust {
        Some(e)
    } else {
        None
    }
}

/// The Rust definitions among the entries, in order.
pub open spec fn rust_definitions(es: Seq<DefinitionEntry>) -> Seq<DefinitionEntry> {
    filter_map(es, |e: DefinitionEntry| rust_entry(e))
}

/// The first position at or after `j` of a definition named `name`.
pub open spec fn first_named_from(ds: Seq<DefinitionEntry>, name: Seq<char>, j: int) -> Option<int>
    decreases ds.len() - j,
{
    if j < 0 || j >= ds.len() {
        None
    } else if ds[j].node.fqn@ == name {
        Some(j)
    } else {
        first_named_from(ds, name, j + 1)
    }
}

/// The relationship from `parent` to `child` of type `t`.
pub open spec fn nested_view(parent: DefinitionEntry, child: DefinitionEntry, t: RelationshipType) -> DefinitionRelationshipView {
    DefinitionRelationshipView {
        from_file_path: parent.node.location.file_path@,
        to_file_path: child.node.location.file_path@,
        from_definition_fqn: parent.node.fqn@,
        to_definition_fqn: child.node.fqn@,
        from_location: parent.node.location,
        to_location: child.node.location,
        relationship_type: t,
        source_location: None,
    }
}

/// Searching the enclosing names of `child`, longest first from the one
/// that drops `i` parts: the first that names a definition among `ds` to
/// which the rules relate `child` gives the relationship.
pub open spec fn nested_from(ds: Seq<DefinitionEntry>, child: DefinitionEntry, i: int) -> Option<DefinitionRelationshipView>
    decreases fqn_view(child.fqn_type).1.len() - i,
{
    let parts = fqn_view(child.fqn_type).1;
    if i < 1 || i >= parts.len() {
        None
    } else {
        let name = joined_prefix(parts, parts.len() - i, "::"@, false);
        match first_named_from(ds, name, 0) {
            Some(j) => match rust_relationship(ds[j].node.definition_type, child.node.definition_type) {
                Some(t) => Some(nested_view(ds[j], child, t)),
                None => nested_from(ds, child, i + 1),
            },
            None => nested_from(ds, child, i + 1),
        }
    }
}

/// The relationships from each Rust definition to the nearest enclosing
/// definition the rules relate it to, in the order of the entries.
pub open spec fn rust_nested_relationships(es: Seq<DefinitionEntry>) -> Seq<DefinitionRelationshipView> {
    let ds = rust_definitions(es);
    filter_map(ds, |c: DefinitionEntry| nested_from(ds, c, 1))
}

/// The positions of the Rust definitions among the entries.
fn rust_positions(map: &DefinitionMap) -> (idx: Vec<usize>)
    ensures
        forall|k: int| 0 <= k < idx@.len() ==> idx@[k] < map@.len(),
        idx@.map_values(|k: usize| map@[k as int]) == rust_definitions(map@),
{
    let ghost es = map@;
    let mut idx: Vec<usize> = Vec::new();
    let mut i: usize = 0;
    while i < map.len()
        invariant
            es == map@,
            i <= es.len(),
            forall|k: int| 0 <= k < idx@.len() ==> idx@[k] < es.len(),
            idx@.map_values(|k: usize| es[k as int]) == filter_map(es.take(i as int), |e: DefinitionEntry| rust_entry(e)),
        decreases es.len() - i,
    {
        proof {
            lemma_filter_map_step(es, |e: DefinitionEntry| rust_entry(e), i as int);
        }
        let is_rust = match &map.entry_at(i).fqn_type {
            FqnType::Rust(_) => true,
            _ => false,
        };
        if is_rust {
            let ghost before = idx@;
            idx.push(i);
            proof {
                assert(idx@.map_values(|k: usize| es[k as int]) =~= before.map_values(|k: usize| es[k as int]).push(es[i as int]));
            }
        }
        i = i + 1;
    }
    assert(es.take(es.len() as int) =~= es);
    idx
}

/// The first position in `idx` of a definition named `name`.
fn first_named(map: &DefinitionMap, idx: &Vec<usize>, name: &str) -> (r: Option<usize>)
    requires
        forall|k: int| 0 <= k < idx@.len() ==> idx@[k] < map@.len(),
    ensures
        match r {
            Some(j) => j < idx@.len() && first_named_from(idx@.map_values(|k: usize| map@[k as int]), name@, 0) == Some(j as int),
            None => first_named_from(idx@.map_values(|k: usize| map@[k as int]), name@, 0) is None,
        },
{
    let ghost ds = idx@.map_values(|k: usize| map@[k as int]);
    let mut j: usize = 0;
    while j < idx.len()
        invariant
            forall|k: int| 0 <= k < idx@.len() ==> idx@[k] < map@.len(),
            ds == idx@.map_values(|k: usize| map@[k as int]),
            j <= idx@.len(),
            first_named_from(ds, name@, 0) == first_named_from(ds, name@, j as int),
        decreases idx@.len() - j,
    {
        let e = map.entry_at(idx[j]);
        if str_eq(e.node.fqn.as_str(), name) {
            return Some(j);
        }
        j = j + 1;
    }
    None
}

/// The nearest enclosing definition the rules relate `child` to, by its
/// position in `idx`, with the relationship type.
fn nested_parent(map: &DefinitionMap, idx: &Vec<usize>, child: &DefinitionEntry) -> (r: Option<(usize, RelationshipType)>)
    requires
        forall|k: int| 0 <= k < idx@.len() ==> idx@[k] < map@.len(),
    ensures
        match r {
            Some((j, t)) => j < idx@.len() && nested_from(idx@.map_values(|k: usize| map@[k as int]), *child, 1)
                == Some(nested_view(map@[idx@[j as int] as int], *child, t)),
            None => nested_from(idx@.map_values(|k: usize| map@[k as int]), *child, 1) is None,
        },
{
    let ghost ds = idx@.map_values(|k: usize| map@[k as int]);
    let parts = match &child.fqn_type {
        FqnType::Ruby(p) => p,
        FqnType::Python(p) => p,
        FqnType::Kotlin(p) => p,
        FqnType::Java(p) => p,
        FqnType::CSharp(p) => p,
        FqnType::TypeScript(p) => p,
        FqnType::Rust(p) => p,
    };
    let n = parts.len();
    let mut i: usize = 1;
    while i < n
        invariant
            forall|k: int| 0 <= k < idx@.len() ==> idx@[k] < map@.len(),
            ds == idx@.map_values(|k: usize| map@[k as int]),
            fqn_view(child.fqn_type).1 == parts@,
            n == parts@.len(),
            1 <= i,
            nested_from(ds, *child, 1) == nested_from(ds, *child, i as int),
        decreases n - i,
    {
        let name = join_prefix(parts, n - i, "::", false);
        match first_named(map, idx, name.as_str()) {
            Some(j) => {
                let parent = map.entry_at(idx[j]);
                match rust_relationship_type(&parent.node.definition_type, &child.node.definition_type) {
                    Some(t) => {
                        return Some((j, t));
                    },
                    None => {},
                }
            },
            None => {},
        }
        i = i + 1;
    }
    None
}

/// Analyzer for Rust files.
pub struct RustAnalyzer;

impl RustAnalyzer {
    pub fn new() -> (a: Self) {
        RustAnalyzer
    }

    /// Files the definitions parsed from one Rust file, as `processed`
    /// states: a second definition under a filed key is dropped.
    pub fn process_definitions(
        &self,
        defs: &Vec<ParsedDefinition>,
        relative_file_path: &str,
        definition_map: &mut DefinitionMap,
        file_definition_relationships: &mut Vec<FileDefinitionRelationship>,
    )
        requires
            keys_unique(old(definition_map)@),
        ensures
            keys_unique(final(definition_map)@),
            (entry_views(final(definition_map)@), file_definition_views(final(file_definition_relationships)@))
                == processed(
                    DefinitionRules::Rust,
                    relative_file_path@,
                    (entry_views(old(definition_map)@), file_definition_views(old(file_definition_relationships)@)),
                    defs@,
                ),
    {
        process_definitions(DefinitionRules::Rust, defs, relative_file_path, definition_map, file_definition_relationships)
    }

    /// Files the imports parsed from one file, as `processed_imports`
    /// states under the Rust rules.
    pub fn process_imports(
        &self,
        imports: &Vec<ParsedImport>,
        relative_file_path: &str,
        imported_symbol_map: &mut ImportedSymbolMap,
        file_import_relationships: &mut Vec<FileImportedSymbolRelationship>,
    )
        requires
            import_keys_unique(old(imported_symbol_map)@),
        ensures
            import_keys_unique(final(imported_symbol_map)@),
            (final(imported_symbol_map)@, final(file_import_relationships)@.map_values(|r: FileImportedSymbolRelationship| file_import_view(r)))
                == processed_imports(
                    DefinitionRules::Rust,
                    relative_file_path@,
                    (old(imported_symbol_map)@, old(file_import_relationships)@.map_values(|r: FileImportedSymbolRelationship| file_import_view(r))),
                    imports@,
                ),
    {
        process_imports(DefinitionRules::Rust, imports, relative_file_path, imported_symbol_map, file_import_relationships)
    }

    /// Appends the Rust relationships between definitions, and from each
    /// definition to the symbols imported inside it.
    pub fn add_definition_relationships(
        &self,
        definition_map: &DefinitionMap,
        imported_symbol_map: &ImportedSymbolMap,
        definition_relationships: &mut Vec<DefinitionRelationship>,
        definition_imported_symbol_relationships: &mut Vec<DefinitionImportedSymbolRelationship>,
    )
        requires
            import_keys_unique(imported_symbol_map@),
        ensures
            final(definition_relationships)@.map_values(|r: DefinitionRelationship| relationship_view(r))
                == old(definition_relationships)@.map_values(|r: DefinitionRelationship| relationship_view(r))
                + rust_nested_relationships(definition_map@),
            final(definition_imported_symbol_relationships)@.map_values(|r: DefinitionImportedSymbolRelationship| definition_import_view(r))
                == old(definition_imported_symbol_relationships)@.map_values(|r: DefinitionImportedSymbolRelationship| definition_import_view(r))
                + definition_imports(definition_map@, imported_symbol_map@),
    {
        self.add_rust_definition_relationships(definition_map, definition_relationships);
        add_definition_import_relationships(definition_map, imported_symbol_map, definition_imported_symbol_relationships);
    }

    /// Appends, for each Rust definition, the relationship from the nearest
    /// enclosing definition the rules relate it to.
    pub fn add_rust_definition_relationships(
        &self,
        definition_map: &DefinitionMap,
        definition_relationships: &mut Vec<DefinitionRelationship>,
    )
        ensures
            final(definition_relationships)@.map_values(|r: DefinitionRelationship| relationship_view(r))
                == old(definition_relationships)@.map_values(|r: DefinitionRelationship| relationship_view(r))
                + rust_nested_relationships(definition_map@),
    {
        let idx = rust_positions(definition_map);
        let ghost ds = idx@.map_values(|k: usize| definition_map@[k as int]);
        let ghost start = definition_relationships@.map_values(|r: DefinitionRelationship| relationship_view(r));
        let mut c: usize = 0;
        while c < idx.len()
            invariant
                forall|k: int| 0 <= k < idx@.len() ==> idx@[k] < definition_map@.len(),
                ds == idx@.map_values(|k: usize| definition_map@[k as int]),
                ds == rust_definitions(definition_map@),
                c <= idx@.len(),
                definition_relationships@.map_values(|r: DefinitionRelationship| relationship_view(r))
                    == start + filter_map(ds.take(c as int), |x: DefinitionEntry| nested_from(ds, x, 1)),
            decreases idx@.len() - c,
        {
            proof {
                lemma_filter_map_step(ds, |x: DefinitionEntry| nested_from(ds, x, 1), c as int);
            }
            let child = definition_map.entry_at(idx[c]);
            c = c + 1;
            match nested_parent(definition_map, &idx, child) {
                Some((j, t)) => {
                    let parent = definition_map.entry_at(idx[j]);
                    let rel = DefinitionRelationship {
                        from_file_path: parent.node.location.file_path.clone(),
                        to_file_path: child.node.location.file_path.clone(),
                        from_definition_fqn: parent.node.fqn.clone(),
                        to_definition_fqn: child.node.fqn.clone(),
                        from_location: parent.node.location.duplicate(),
                        to_location: child.node.location.duplicate(),
                        relationship_type: t,
                        source_location: None,
                    };
                    let ghost before = definition_relationships@;
                    definition_relationships.push(rel);
                    proof {
                        assert(definition_relationships@.map_values(|r: DefinitionRelationship| relationship_view(r))
                            =~= before.map_values(|r: DefinitionRelationship| relationship_view(r)).push(relationship_view(rel)));
                    }
                },
                None => {},
            }
        }
        assert(ds.take(ds.len() as int) =~= ds);
    }
}

} // verus!
