//! Integer identifiers for graph nodes, and the mapping of graph
//! relationships onto them.

use vstd::prelude::*;
use crate::analysis::types::{
    DefinitionImportedSymbolRelationship, DefinitionRelationship, DirectoryRelationship,
    FileDefinitionRelationship, FileImportedSymbolRelationship, GraphData, ImportedSymbolLocation,
    Range, DefinitionLocation,
};
use crate::graph::{relationship_code, RelationshipType, RelationshipTypeMapping};
use crate::id_table::{assigned, 
    ids_fresh_below, lemma_fresh_insert, lemma_span_key_injective, make_span_key, span_key,
    IdTable,
};
use crate::mutation::types::{plain_relationship, ConsolidatedRelationship, ConsolidatedRelationships};
use crate::seq_util::{filter_map, lemma_filter_map_step};

verus! {

/// A span key as a tuple: file path, start byte, end byte.
pub type SpanKey = (Seq<char>, nat, nat);

/// The identifiers that a generator has handed out, per node kind.
pub struct NodeIdsView {
    pub directories: Map<Seq<char>, u32>,
    pub files: Map<Seq<char>, u32>,
    pub definitions: Map<SpanKey, u32>,
    pub imported_symbols: Map<SpanKey, u32>,
}

/// The map over span tuples that a table of span keys stands for.
pub open spec fn span_map(t: Map<Seq<char>, u32>) -> Map<SpanKey, u32> {
    Map::new(
        |k: SpanKey| t.contains_key(span_key(k.0, k.1, k.2)),
        |k: SpanKey| t[span_key(k.0, k.1, k.2)],
    )
}

proof fn lemma_span_map_insert(t: Map<Seq<char>, u32>, k: SpanKey, v: u32)
    ensures
        span_map(t.insert(span_key(k.0, k.1, k.2), v)) == span_map(t).insert(k, v),
{
    let lhs = span_map(t.insert(span_key(k.0, k.1, k.2), v));
    let rhs = span_map(t).insert(k, v);
    assert forall|j: SpanKey| lhs.contains_key(j) == rhs.contains_key(j) by {
        if span_key(j.0, j.1, j.2) == span_key(k.0, k.1, k.2) {
            lemma_span_key_injective(j.0, j.1, j.2, k.0, k.1, k.2);
        }
    }
    assert forall|j: SpanKey| #[trigger] lhs.contains_key(j) implies lhs[j] == rhs[j] by {
        if span_key(j.0, j.1, j.2) == span_key(k.0, k.1, k.2) {
            lemma_span_key_injective(j.0, j.1, j.2, k.0, k.1, k.2);
        }
    }
    assert(lhs =~= rhs);
}

/// The key of the definition at `range` in `path`.
pub open spec fn definition_key(path: Seq<char>, range: Range) -> SpanKey {
    (path, range.byte_offset.0 as nat, range.byte_offset.1 as nat)
}

/// The key of an imported symbol: its file and its byte span, each offset
/// converted to `usize` as `as` converts it.
pub open spec fn import_key(location: ImportedSymbolLocation) -> SpanKey {
    (location.file_path@, (location.start_byte as usize) as nat, (location.end_byte as usize) as nat)
}

/// Imported symbols are numbered by file and byte span: two locations
/// that agree on those get the same identifier, the second ask changing
/// nothing, whatever their lines and columns.
pub proof fn lemma_same_span_same_id(
    m: Map<SpanKey, u32>,
    next: u32,
    l1: ImportedSymbolLocation,
    l2: ImportedSymbolLocation,
)
    requires
        l1.file_path@ == l2.file_path@,
        l1.start_byte == l2.start_byte,
        l1.end_byte == l2.end_byte,
    ensures
        ({
            let (id1, m1, n1) = assigned(m, next, import_key(l1));
            assigned(m1, n1, import_key(l2)) == (id1, m1, n1)
        }),
{
}

/// Node ID generator for assigning integer IDs to nodes
pub struct NodeIdGenerator {
    /// Directory path to ID mapping
    pub directory_ids: IdTable,
    /// File path to ID mapping
    pub file_ids: IdTable,
    /// Definition byte range to ID mapping
    pub definition_ids: IdTable,
    /// Imported symbol byte range to ID mapping
    pub imported_symbol_ids: IdTable,
    /// Next available IDs for each type
    pub next_directory_id: u32,
    pub next_file_id: u32,
    pub next_definition_id: u32,
    pub next_imported_symbol_id: u32,
}

impl View for NodeIdGenerator {
    type V = NodeIdsView;

    closed spec fn view(&self) -> NodeIdsView {
        NodeIdsView {
            directories: self.directory_ids@,
            files: self.file_ids@,
            definitions: span_map(self.definition_ids@),
            imported_symbols: span_map(self.imported_symbol_ids@),
        }
    }
}

impl NodeIdGenerator {
    /// Every identifier handed out is below the next one of its kind and
    /// at least one, and no two nodes of a kind share an identifier.
    pub open spec fn ids_well_formed(&self) -> bool {
        &&& ids_fresh_below(self@.directories, self.next_directory_id)
        &&& ids_fresh_below(self@.files, self.next_file_id)
        &&& ids_fresh_below(self@.definitions, self.next_definition_id)
        &&& ids_fresh_below(self@.imported_symbols, self.next_imported_symbol_id)
    }

    pub fn new() -> (g: Self)
        ensures
            g@.directories == Map::<Seq<char>, u32>::empty(),
            g@.files == Map::<Seq<char>, u32>::empty(),
            g@.definitions == Map::<SpanKey, u32>::empty(),
            g@.imported_symbols == Map::<SpanKey, u32>::empty(),
            g.next_directory_id == 1,
            g.next_file_id == 1,
            g.next_definition_id == 1,
            g.next_imported_symbol_id == 1,
            g.ids_well_formed(),
    {
        let g = NodeIdGenerator {
            directory_ids: IdTable::new(),
            file_ids: IdTable::new(),
            definition_ids: IdTable::new(),
            imported_symbol_ids: IdTable::new(),
            next_directory_id: 1,
            next_file_id: 1,
            next_definition_id: 1,
            next_imported_symbol_id: 1,
        };
        assert(g@.definitions =~= Map::<SpanKey, u32>::empty());
        assert(g@.imported_symbols =~= Map::<SpanKey, u32>::empty());
        g
    }

    /// Clear all ID mappings while preserving the next ID counters
    pub fn clear(&mut self)
        ensures
            final(self)@.directories == Map::<Seq<char>, u32>::empty(),
            final(self)@.files == Map::<Seq<char>, u32>::empty(),
            final(self)@.definitions == Map::<SpanKey, u32>::empty(),
            final(self)@.imported_symbols == Map::<SpanKey, u32>::empty(),
            final(self).next_directory_id == old(self).next_directory_id,
            final(self).next_file_id == old(self).next_file_id,
            final(self).next_definition_id == old(self).next_definition_id,
            final(self).next_imported_symbol_id == old(self).next_imported_symbol_id,
            old(self).ids_well_formed() ==> final(self).ids_well_formed(),
    {
        self.directory_ids.clear();
        self.file_ids.clear();
        self.definition_ids.clear();
        self.imported_symbol_ids.clear();
        assert(self@.definitions =~= Map::<SpanKey, u32>::empty());
        assert(self@.imported_symbols =~= Map::<SpanKey, u32>::empty());
    }

    pub fn get_or_assign_directory_id(&mut self, path: &str) -> (id: u32)
        requires
            old(self)@.directories.contains_key(path@) || old(self).next_directory_id < u32::MAX,
        ensures
            old(self)@.directories.contains_key(path@) ==> {
                &&& id == old(self)@.directories[path@]
                &&& final(self)@.directories == old(self)@.directories
                &&& final(self).next_directory_id == old(self).next_directory_id
            },
            !old(self)@.directories.contains_key(path@) ==> {
                &&& id == old(self).next_directory_id
                &&& final(self)@.directories == old(self)@.directories.insert(path@, id)
                &&& final(self).next_directory_id == old(self).next_directory_id + 1
            },
            (id, final(self)@.directories, final(self).next_directory_id) == assigned(old(self)@.directories, old(self).next_directory_id, path@),
            final(self)@.files == old(self)@.files,
            final(self)@.definitions == old(self)@.definitions,
            final(self)@.imported_symbols == old(self)@.imported_symbols,
            final(self).next_file_id == old(self).next_file_id,
            final(self).next_definition_id == old(self).next_definition_id,
            final(self).next_imported_symbol_id == old(self).next_imported_symbol_id,
            old(self).ids_well_formed() ==> final(self).ids_well_formed(),
    {
        let ghost before = self.directory_ids@;
        let ghost next = self.next_directory_id;
        let id = self.directory_ids.get_or_assign(path, &mut self.next_directory_id);
        proof {
            if !before.contains_key(path@) && ids_fresh_below(before, next) {
                lemma_fresh_insert(before, next, path@);
            }
        }
        id
    }

    pub fn get_or_assign_file_id(&mut self, path: &str) -> (id: u32)
        requires
            old(self)@.files.contains_key(path@) || old(self).next_file_id < u32::MAX,
        ensures
            old(self)@.files.contains_key(path@) ==> {
                &&& id == old(self)@.files[path@]
                &&& final(self)@.files == old(self)@.files
                &&& final(self).next_file_id == old(self).next_file_id
            },
            !old(self)@.files.contains_key(path@) ==> {
                &&& id == old(self).next_file_id
                &&& final(self)@.files == old(self)@.files.insert(path@, id)
                &&& final(self).next_file_id == old(self).next_file_id + 1
            },
            (id, final(self)@.files, final(self).next_file_id) == assigned(old(self)@.files, old(self).next_file_id, path@),
            final(self)@.directories == old(self)@.directories,
            final(self)@.definitions == old(self)@.definitions,
            final(self)@.imported_symbols == old(self)@.imported_symbols,
            final(self).next_directory_id == old(self).next_directory_id,
            final(self).next_definition_id == old(self).next_definition_id,
            final(self).next_imported_symbol_id == old(self).next_imported_symbol_id,
            old(self).ids_well_formed() ==> final(self).ids_well_formed(),
    {
        let ghost before = self.file_ids@;
        let ghost next = self.next_file_id;
        let id = self.file_ids.get_or_assign(path, &mut self.next_file_id);
        proof {
            if !before.contains_key(path@) && ids_fresh_below(before, next) {
                lemma_fresh_insert(before, next, path@);
            }
        }
        id
    }

    pub fn get_or_assign_definition_id(&mut self, file_path: &str, range: &Range) -> (id: u32)
        requires
            old(self)@.definitions.contains_key(definition_key(file_path@, *range))
                || old(self).next_definition_id < u32::MAX,
        ensures
            old(self)@.definitions.contains_key(definition_key(file_path@, *range)) ==> {
                &&& id == old(self)@.definitions[definition_key(file_path@, *range)]
                &&& final(self)@.definitions == old(self)@.definitions
                &&& final(self).next_definition_id == old(self).next_definition_id
            },
            !old(self)@.definitions.contains_key(definition_key(file_path@, *range)) ==> {
                &&& id == old(self).next_definition_id
                &&& final(self)@.definitions == old(self)@.definitions.insert(
                    definition_key(file_path@, *range),
                    id,
                )
                &&& final(self).next_definition_id == old(self).next_definition_id + 1
            },
            (id, final(self)@.definitions, final(self).next_definition_id) == assigned(old(self)@.definitions, old(self).next_definition_id, definition_key(file_path@, *range)),
            final(self)@.directories == old(self)@.directories,
            final(self)@.files == old(self)@.files,
            final(self)@.imported_symbols == old(self)@.imported_symbols,
            final(self).next_directory_id == old(self).next_directory_id,
            final(self).next_file_id == old(self).next_file_id,
            final(self).next_imported_symbol_id == old(self).next_imported_symbol_id,
            old(self).ids_well_formed() ==> final(self).ids_well_formed(),
    {
        let ghost before = self.definition_ids@;
        let ghost next = self.next_definition_id;
        let ghost k = definition_key(file_path@, *range);
        let key = make_span_key(file_path, range.byte_offset.0, range.byte_offset.1);
        let id = self.definition_ids.get_or_assign(key.as_str(), &mut self.next_definition_id);
        proof {
            if !before.contains_key(key@) {
                lemma_span_map_insert(before, k, id);
                if ids_fresh_below(span_map(before), next) {
                    lemma_fresh_insert(span_map(before), next, k);
                }
            }
        }
        id
    }

    pub fn get_or_assign_imported_symbol_id(&mut self, location: &ImportedSymbolLocation) -> (id: u32)
        requires
            old(self)@.imported_symbols.contains_key(import_key(*location))
                || old(self).next_imported_symbol_id < u32::MAX,
        ensures
            old(self)@.imported_symbols.contains_key(import_key(*location)) ==> {
                &&& id == old(self)@.imported_symbols[import_key(*location)]
                &&& final(self)@.imported_symbols == old(self)@.imported_symbols
                &&& final(self).next_imported_symbol_id == old(self).next_imported_symbol_id
            },
            !old(self)@.imported_symbols.contains_key(import_key(*location)) ==> {
                &&& id == old(self).next_imported_symbol_id
                &&& final(self)@.imported_symbols == old(self)@.imported_symbols.insert(
                    import_key(*location),
                    id,
                )
                &&& final(self).next_imported_symbol_id == old(self).next_imported_symbol_id + 1
            },
            (id, final(self)@.imported_symbols, final(self).next_imported_symbol_id) == assigned(old(self)@.imported_symbols, old(self).next_imported_symbol_id, import_key(*location)),
            final(self)@.directories == old(self)@.directories,
            final(self)@.files == old(self)@.files,
            final(self)@.definitions == old(self)@.definitions,
            final(self).next_directory_id == old(self).next_directory_id,
            final(self).next_file_id == old(self).next_file_id,
            final(self).next_definition_id == old(self).next_definition_id,
            old(self).ids_well_formed() ==> final(self).ids_well_formed(),
    {
        let ghost before = self.imported_symbol_ids@;
        let ghost next = self.next_imported_symbol_id;
        let ghost k = import_key(*location);
        let key = make_span_key(
            location.file_path.as_str(),
            location.start_byte as usize,
            location.end_byte as usize,
        );
        let id = self.imported_symbol_ids.get_or_assign(key.as_str(), &mut self.next_imported_symbol_id);
        proof {
            if !before.contains_key(key@) {
                lemma_span_map_insert(before, k, id);
                if ids_fresh_below(span_map(before), next) {
                    lemma_fresh_insert(span_map(before), next, k);
                }
            }
        }
        id
    }

    pub fn get_directory_id(&self, path: &str) -> (r: Option<u32>)
        ensures
            r == (if self@.directories.contains_key(path@) {
                Some(self@.directories[path@])
            } else {
                None::<u32>
            }),
    {
        self.directory_ids.get(path)
    }

    pub fn get_file_id(&self, path: &str) -> (r: Option<u32>)
        ensures
            r == (if self@.files.contains_key(path@) {
                Some(self@.files[path@])
            } else {
                None::<u32>
            }),
    {
        self.file_ids.get(path)
    }

    pub fn get_definition_id(&self, file_path: &str, range: &Range) -> (r: Option<u32>)
        ensures
            r == (if self@.definitions.contains_key(definition_key(file_path@, *range)) {
                Some(self@.definitions[definition_key(file_path@, *range)])
            } else {
                None::<u32>
            }),
    {
        let key = make_span_key(file_path, range.byte_offset.0, range.byte_offset.1);
        self.definition_ids.get(key.as_str())
    }

    pub fn get_imported_symbol_id(&self, location: &ImportedSymbolLocation) -> (r: Option<u32>)
        ensures
            r == (if self@.imported_symbols.contains_key(import_key(*location)) {
                Some(self@.imported_symbols[import_key(*location)])
            } else {
                None::<u32>
            }),
    {
        let key = make_span_key(
            location.file_path.as_str(),
            location.start_byte as usize,
            location.end_byte as usize,
        );
        self.imported_symbol_ids.get(key.as_str())
    }
}

} // verus!

verus! {

/// The stored form of a directory-to-directory relationship, when both
/// directories have identifiers.
pub open spec fn dir_to_dir_entry(g: NodeIdsView, r: DirectoryRelationship) -> Option<ConsolidatedRelationship> {
    if r.relationship_type == RelationshipType::DirContainsDir
        && g.directories.contains_key(r.from_path@)
        && g.directories.contains_key(r.to_path@) {
        Some(plain_relationship(
            g.directories[r.from_path@],
            g.directories[r.to_path@],
            relationship_code(r.relationship_type),
        ))
    } else {
        None
    }
}

/// The stored form of a directory-to-file relationship, when the directory
/// and the file have identifiers.
pub open spec fn dir_to_file_entry(g: NodeIdsView, r: DirectoryRelationship) -> Option<ConsolidatedRelationship> {
    if r.relationship_type == RelationshipType::DirContainsFile
        && g.directories.contains_key(r.from_path@)
        && g.files.contains_key(r.to_path@) {
        Some(plain_relationship(
            g.directories[r.from_path@],
            g.files[r.to_path@],
            relationship_code(r.relationship_type),
        ))
    } else {
        None
    }
}

/// The stored form of a file-to-definition relationship, when the file and
/// the definition (looked up in the relationship's file) have identifiers.
pub open spec fn file_to_definition_entry(g: NodeIdsView, r: FileDefinitionRelationship) -> Option<ConsolidatedRelationship> {
    let dk = definition_key(r.file_path@, r.definition_location.spec_range());
    if g.files.contains_key(r.file_path@) && g.definitions.contains_key(dk) {
        Some(plain_relationship(g.files[r.file_path@], g.definitions[dk], relationship_code(r.relationship_type)))
    } else {
        None
    }
}

/// The stored form of a file-to-imported-symbol relationship, when both ends
/// have identifiers.
pub open spec fn file_to_import_entry(g: NodeIdsView, r: FileImportedSymbolRelationship) -> Option<ConsolidatedRelationship> {
    let ik = import_key(r.import_location);
    if g.files.contains_key(r.file_path@) && g.imported_symbols.contains_key(ik) {
        Some(plain_relationship(g.files[r.file_path@], g.imported_symbols[ik], relationship_code(r.relationship_type)))
    } else {
        None
    }
}

/// The stored form of a definition-to-definition relationship, when both
/// definitions have identifiers.
pub open spec fn definition_to_definition_entry(g: NodeIdsView, r: DefinitionRelationship) -> Option<ConsolidatedRelationship> {
    let from = definition_key(r.from_file_path@, r.from_location.spec_range());
    let to = definition_key(r.to_file_path@, r.to_location.spec_range());
    if g.definitions.contains_key(from) && g.definitions.contains_key(to) {
        Some(plain_relationship(g.definitions[from], g.definitions[to], relationship_code(r.relationship_type)))
    } else {
        None
    }
}

/// The stored form of a definition-to-imported-symbol relationship, when
/// both ends have identifiers.
pub open spec fn definition_to_import_entry(g: NodeIdsView, r: DefinitionImportedSymbolRelationship) -> Option<ConsolidatedRelationship> {
    let from = definition_key(r.file_path@, r.definition_location.spec_range());
    let to = import_key(r.imported_symbol_location);
    if g.definitions.contains_key(from) && g.imported_symbols.contains_key(to) {
        Some(plain_relationship(g.definitions[from], g.imported_symbols[to], relationship_code(r.relationship_type)))
    } else {
        None
    }
}

/// What consolidation produces from `d` with the identifiers `g`: one list
/// per pair of node kinds, each relationship whose ends have identifiers in
/// the order of its input list; the lists between imported symbols and
/// other nodes stay empty.
pub open spec fn consolidated_from(g: NodeIdsView, d: GraphData, r: ConsolidatedRelationships) -> bool {
    &&& r.directory_to_directory@ == filter_map(d.directory_relationships@, |x| dir_to_dir_entry(g, x))
    &&& r.directory_to_file@ == filter_map(d.directory_relationships@, |x| dir_to_file_entry(g, x))
    &&& r.file_to_definition@ == filter_map(d.file_definition_relationships@, |x| file_to_definition_entry(g, x))
    &&& r.file_to_imported_symbol@ == filter_map(d.file_imported_symbol_relationships@, |x| file_to_import_entry(g, x))
    &&& r.definition_to_definition@ == filter_map(d.definition_relationships@, |x| definition_to_definition_entry(g, x))
    &&& r.definition_to_imported_symbol@ == filter_map(
        d.definition_imported_symbol_relationships@,
        |x| definition_to_import_entry(g, x),
    )
    &&& r.imported_symbol_to_imported_symbol@.len() == 0
    &&& r.imported_symbol_to_definition@.len() == 0
    &&& r.imported_symbol_to_file@.len() == 0
}

/// The key of a definition node.
pub open spec fn definition_node_key(location: DefinitionLocation) -> SpanKey {
    definition_key(location.file_path@, location.spec_range())
}

/// `after` keeps every identifier of `before` and adds exactly the keys in
/// `new_keys` that `before` lacked.
pub open spec fn extends_with<K>(before: Map<K, u32>, after: Map<K, u32>, new_keys: Seq<K>) -> bool {
    &&& forall|k: K| #[trigger] before.contains_key(k) ==> after.contains_key(k) && after[k] == before[k]
    &&& forall|k: K| #[trigger] after.contains_key(k) <==> (before.contains_key(k) || new_keys.contains(k))
}

proof fn lemma_extends_step<K>(before: Map<K, u32>, mid: Map<K, u32>, after: Map<K, u32>, keys: Seq<K>, i: int)
    requires
        0 <= i < keys.len(),
        extends_with(before, mid, keys.take(i)),
        mid.contains_key(keys[i]) ==> after == mid,
        !mid.contains_key(keys[i]) ==> after == mid.insert(keys[i], after[keys[i]]),
    ensures
        extends_with(before, after, keys.take(i + 1)),
{
    assert(keys.take(i + 1) =~= keys.take(i).push(keys[i]));
    assert forall|k: K| #[trigger] after.contains_key(k) <==> (before.contains_key(k) || keys.take(i + 1).contains(k)) by {
        if keys.take(i + 1).contains(k) && !keys.take(i).contains(k) {
            let j = choose|j: int| 0 <= j < keys.take(i + 1).len() && #[trigger] keys.take(i + 1)[j] == k;
            assert(j == i);
        }
        if keys.take(i).contains(k) {
            let j = choose|j: int| 0 <= j < keys.take(i).len() && #[trigger] keys.take(i)[j] == k;
            assert(keys.take(i + 1)[j] == k);
        }
        if k == keys[i] {
            assert(keys.take(i + 1)[i] == k);
        }
    }
}

pub struct GraphMapper<'a> {
    pub graph_data: &'a GraphData,
}

impl<'a> GraphMapper<'a> {
    /// Create a new mapper over `graph_data`.
    pub fn new(graph_data: &'a GraphData) -> (m: Self)
        ensures
            m.graph_data == graph_data,
    {
        GraphMapper { graph_data }
    }

    /// Pre-assign integer IDs to all nodes
    pub fn assign_node_ids(graph_data: &GraphData, ids: &mut NodeIdGenerator)
        requires
            old(ids).next_directory_id + graph_data.directory_nodes@.len() < u32::MAX,
            old(ids).next_file_id + graph_data.file_nodes@.len() < u32::MAX,
            old(ids).next_definition_id + graph_data.definition_nodes@.len() < u32::MAX,
            old(ids).next_imported_symbol_id + graph_data.imported_symbol_nodes@.len() < u32::MAX,
        ensures
            extends_with(
                old(ids)@.directories,
                final(ids)@.directories,
                graph_data.directory_nodes@.map_values(|n: crate::analysis::types::DirectoryNode| n.path@),
            ),
            extends_with(
                old(ids)@.files,
                final(ids)@.files,
                graph_data.file_nodes@.map_values(|n: crate::analysis::types::FileNode| n.path@),
            ),
            extends_with(
                old(ids)@.definitions,
                final(ids)@.definitions,
                graph_data.definition_nodes@.map_values(
                    |n: crate::analysis::types::DefinitionNode| definition_node_key(n.location),
                ),
            ),
            extends_with(
                old(ids)@.imported_symbols,
                final(ids)@.imported_symbols,
                graph_data.imported_symbol_nodes@.map_values(
                    |n: crate::analysis::types::ImportedSymbolNode| import_key(n.location),
                ),
            ),
            old(ids).ids_well_formed() ==> final(ids).ids_well_formed(),
    {
        let ghost start = ids@;
        let ghost dir_keys = graph_data.directory_nodes@.map_values(|n: crate::analysis::types::DirectoryNode| n.path@);
        let mut i: usize = 0;
        while i < graph_data.directory_nodes.len()
            invariant
                i <= graph_data.directory_nodes@.len(),
                dir_keys == graph_data.directory_nodes@.map_values(|n: crate::analysis::types::DirectoryNode| n.path@),
                extends_with(start.directories, ids@.directories, dir_keys.take(i as int)),
                ids@.files == start.files,
                ids@.definitions == start.definitions,
                ids@.imported_symbols == start.imported_symbols,
                ids.next_directory_id <= old(ids).next_directory_id + i,
                ids.next_file_id == old(ids).next_file_id,
                ids.next_definition_id == old(ids).next_definition_id,
                ids.next_imported_symbol_id == old(ids).next_imported_symbol_id,
                old(ids).next_directory_id + graph_data.directory_nodes@.len() < u32::MAX,
                old(ids).ids_well_formed() ==> ids.ids_well_formed(),
            decreases graph_data.directory_nodes@.len() - i,
        {
            let ghost mid = ids@.directories;
            ids.get_or_assign_directory_id(graph_data.directory_nodes[i].path.as_str());
            proof {
                lemma_extends_step(start.directories, mid, ids@.directories, dir_keys, i as int);
            }
            i = i + 1;
        }
        assert(dir_keys.take(dir_keys.len() as int) =~= dir_keys);

        let ghost file_keys = graph_data.file_nodes@.map_values(|n: crate::analysis::types::FileNode| n.path@);
        let ghost dirs_done = ids@.directories;
        let mut i: usize = 0;
        while i < graph_data.file_nodes.len()
            invariant
                i <= graph_data.file_nodes@.len(),
                file_keys == graph_data.file_nodes@.map_values(|n: crate::analysis::types::FileNode| n.path@),
                extends_with(start.files, ids@.files, file_keys.take(i as int)),
                ids@.directories == dirs_done,
                ids@.definitions == start.definitions,
                ids@.imported_symbols == start.imported_symbols,
                ids.next_file_id <= old(ids).next_file_id + i,
                ids.next_definition_id == old(ids).next_definition_id,
                ids.next_imported_symbol_id == old(ids).next_imported_symbol_id,
                old(ids).next_file_id + graph_data.file_nodes@.len() < u32::MAX,
                old(ids).ids_well_formed() ==> ids.ids_well_formed(),
            decreases graph_data.file_nodes@.len() - i,
        {
            let ghost mid = ids@.files;
            ids.get_or_assign_file_id(graph_data.file_nodes[i].path.as_str());
            proof {
                lemma_extends_step(start.files, mid, ids@.files, file_keys, i as int);
            }
            i = i + 1;
        }
        assert(file_keys.take(file_keys.len() as int) =~= file_keys);

        let ghost def_keys = graph_data.definition_nodes@.map_values(
            |n: crate::analysis::types::DefinitionNode| definition_node_key(n.location),
        );
        let ghost files_done = ids@.files;
        let mut i: usize = 0;
        while i < graph_data.definition_nodes.len()
            invariant
                i <= graph_data.definition_nodes@.len(),
                def_keys == graph_data.definition_nodes@.map_values(
                    |n: crate::analysis::types::DefinitionNode| definition_node_key(n.location),
                ),
                extends_with(start.definitions, ids@.definitions, def_keys.take(i as int)),
                ids@.directories == dirs_done,
                ids@.files == files_done,
                ids@.imported_symbols == start.imported_symbols,
                ids.next_definition_id <= old(ids).next_definition_id + i,
                ids.next_imported_symbol_id == old(ids).next_imported_symbol_id,
                old(ids).next_definition_id + graph_data.definition_nodes@.len() < u32::MAX,
                old(ids).ids_well_formed() ==> ids.ids_well_formed(),
            decreases graph_data.definition_nodes@.len() - i,
        {
            let ghost mid = ids@.definitions;
            let location = &graph_data.definition_nodes[i].location;
            let range = location.to_range();
            ids.get_or_assign_definition_id(location.file_path.as_str(), &range);
            proof {
                lemma_extends_step(start.definitions, mid, ids@.definitions, def_keys, i as int);
            }
            i = i + 1;
        }
        assert(def_keys.take(def_keys.len() as int) =~= def_keys);

        let ghost import_keys = graph_data.imported_symbol_nodes@.map_values(
            |n: crate::analysis::types::ImportedSymbolNode| import_key(n.location),
        );
        let ghost defs_done = ids@.definitions;
        let mut i: usize = 0;
        while i < graph_data.imported_symbol_nodes.len()
            invariant
                i <= graph_data.imported_symbol_nodes@.len(),
                import_keys == graph_data.imported_symbol_nodes@.map_values(
                    |n: crate::analysis::types::ImportedSymbolNode| import_key(n.location),
                ),
                extends_with(start.imported_symbols, ids@.imported_symbols, import_keys.take(i as int)),
                ids@.directories == dirs_done,
                ids@.files == files_done,
                ids@.definitions == defs_done,
                ids.next_imported_symbol_id <= old(ids).next_imported_symbol_id + i,
                old(ids).next_imported_symbol_id + graph_data.imported_symbol_nodes@.len() < u32::MAX,
                old(ids).ids_well_formed() ==> ids.ids_well_formed(),
            decreases graph_data.imported_symbol_nodes@.len() - i,
        {
            let ghost mid = ids@.imported_symbols;
            ids.get_or_assign_imported_symbol_id(&graph_data.imported_symbol_nodes[i].location);
            proof {
                lemma_extends_step(start.imported_symbols, mid, ids@.imported_symbols, import_keys, i as int);
            }
            i = i + 1;
        }
        assert(import_keys.take(import_keys.len() as int) =~= import_keys);
    }

    /// Map the graph data to the integer IDs: assign identifiers to all
    /// nodes, then consolidate the relationships with them.
    pub fn map_graph_data(
        graph_data: &GraphData,
        node_id_generator: &mut NodeIdGenerator,
        relationship_mapping: &RelationshipTypeMapping,
    ) -> (r: ConsolidatedRelationships)
        requires
            old(node_id_generator).next_directory_id + graph_data.directory_nodes@.len() < u32::MAX,
            old(node_id_generator).next_file_id + graph_data.file_nodes@.len() < u32::MAX,
            old(node_id_generator).next_definition_id + graph_data.definition_nodes@.len() < u32::MAX,
            old(node_id_generator).next_imported_symbol_id + graph_data.imported_symbol_nodes@.len()
                < u32::MAX,
        ensures
            extends_with(
                old(node_id_generator)@.directories,
                final(node_id_generator)@.directories,
                graph_data.directory_nodes@.map_values(|n: crate::analysis::types::DirectoryNode| n.path@),
            ),
            extends_with(
                old(node_id_generator)@.files,
                final(node_id_generator)@.files,
                graph_data.file_nodes@.map_values(|n: crate::analysis::types::FileNode| n.path@),
            ),
            extends_with(
                old(node_id_generator)@.definitions,
                final(node_id_generator)@.definitions,
                graph_data.definition_nodes@.map_values(
                    |n: crate::analysis::types::DefinitionNode| definition_node_key(n.location),
                ),
            ),
            extends_with(
                old(node_id_generator)@.imported_symbols,
                final(node_id_generator)@.imported_symbols,
                graph_data.imported_symbol_nodes@.map_values(
                    |n: crate::analysis::types::ImportedSymbolNode| import_key(n.location),
                ),
            ),
            old(node_id_generator).ids_well_formed() ==> final(node_id_generator).ids_well_formed(),
            consolidated_from(final(node_id_generator)@, *graph_data, r),
    {
        Self::assign_node_ids(graph_data, node_id_generator);
        Self::consolidate_relationships(graph_data, node_id_generator, relationship_mapping)
    }

    /// Consolidate all relationships into per-kind lists with integer IDs
    /// and type codes, leaving out each relationship one of whose ends has
    /// no identifier.
    pub fn consolidate_relationships(
        graph_data: &GraphData,
        id_generator: &NodeIdGenerator,
        relationship_mapping: &RelationshipTypeMapping,
    ) -> (r: ConsolidatedRelationships)
        ensures
            consolidated_from(id_generator@, *graph_data, r),
    {
        let ghost g = id_generator@;
        let mut relationships = ConsolidatedRelationships::default();

        // Process directory-to-directory and directory-to-file relationships
        let rels = &graph_data.directory_relationships;
        let mut i: usize = 0;
        while i < rels.len()
            invariant
                g == id_generator@,
                i <= rels@.len(),
                relationships.directory_to_directory@ == filter_map(rels@.take(i as int), |x| dir_to_dir_entry(g, x)),
                relationships.directory_to_file@ == filter_map(rels@.take(i as int), |x| dir_to_file_entry(g, x)),
                relationships.file_to_definition@.len() == 0,
                relationships.file_to_imported_symbol@.len() == 0,
                relationships.definition_to_definition@.len() == 0,
                relationships.definition_to_imported_symbol@.len() == 0,
                relationships.imported_symbol_to_imported_symbol@.len() == 0,
                relationships.imported_symbol_to_definition@.len() == 0,
                relationships.imported_symbol_to_file@.len() == 0,
            decreases rels@.len() - i,
        {
            proof {
                lemma_filter_map_step(rels@, |x| dir_to_dir_entry(g, x), i as int);
                lemma_filter_map_step(rels@, |x| dir_to_file_entry(g, x), i as int);
            }
            let dir_rel = &rels[i];
            i = i + 1;
            let source_id = match id_generator.get_directory_id(dir_rel.from_path.as_str()) {
                Some(id) => id,
                None => {
                    continue;
                },
            };
            let relationship_type = relationship_mapping.get_type_id(dir_rel.relationship_type);
            if dir_rel.relationship_type == RelationshipType::DirContainsDir {
                let target_id = match id_generator.get_directory_id(dir_rel.to_path.as_str()) {
                    Some(id) => id,
                    None => {
                        continue;
                    },
                };
                relationships.directory_to_directory.push(ConsolidatedRelationship {
                    source_id: Some(source_id),
                    target_id: Some(target_id),
                    relationship_type,
                    start_byte: None,
                    end_byte: None,
                    start_line: None,
                    end_line: None,
                    start_column: None,
                    end_column: None,
                });
            } else if dir_rel.relationship_type == RelationshipType::DirContainsFile {
                let target_id = match id_generator.get_file_id(dir_rel.to_path.as_str()) {
                    Some(id) => id,
                    None => {
                        continue;
                    },
                };
                relationships.directory_to_file.push(ConsolidatedRelationship {
                    source_id: Some(source_id),
                    target_id: Some(target_id),
                    relationship_type,
                    start_byte: None,
                    end_byte: None,
                    start_line: None,
                    end_line: None,
                    start_column: None,
                    end_column: None,
                });
            }
        }
        assert(rels@.take(rels@.len() as int) =~= rels@);

        // Process file-to-definition relationships
        let rels = &graph_data.file_definition_relationships;
        let ghost dd = relationships.directory_to_directory@;
        let ghost df = relationships.directory_to_file@;
        let mut i: usize = 0;
        while i < rels.len()
            invariant
                g == id_generator@,
                i <= rels@.len(),
                relationships.directory_to_directory@ == dd,
                relationships.directory_to_file@ == df,
                relationships.file_to_definition@ == filter_map(rels@.take(i as int), |x| file_to_definition_entry(g, x)),
                relationships.file_to_imported_symbol@.len() == 0,
                relationships.definition_to_definition@.len() == 0,
                relationships.definition_to_imported_symbol@.len() == 0,
                relationships.imported_symbol_to_imported_symbol@.len() == 0,
                relationships.imported_symbol_to_definition@.len() == 0,
                relationships.imported_symbol_to_file@.len() == 0,
            decreases rels@.len() - i,
        {
            proof {
                lemma_filter_map_step(rels@, |x| file_to_definition_entry(g, x), i as int);
            }
            let file_rel = &rels[i];
            i = i + 1;
            let source_id = match id_generator.get_file_id(file_rel.file_path.as_str()) {
                Some(id) => id,
                None => {
                    continue;
                },
            };
            let range = file_rel.definition_location.to_range();
            let target_id = match id_generator.get_definition_id(file_rel.file_path.as_str(), &range) {
                Some(id) => id,
                None => {
                    continue;
                },
            };
            let relationship_type = relationship_mapping.get_type_id(file_rel.relationship_type);
            relationships.file_to_definition.push(ConsolidatedRelationship {
                source_id: Some(source_id),
                target_id: Some(target_id),
                relationship_type,
                start_byte: None,
                end_byte: None,
                start_line: None,
                end_line: None,
                start_column: None,
                end_column: None,
            });
        }
        assert(rels@.take(rels@.len() as int) =~= rels@);

        // Process file-to-imported-symbol relationships
        let rels = &graph_data.file_imported_symbol_relationships;
        let ghost fd = relationships.file_to_definition@;
        let mut i: usize = 0;
        while i < rels.len()
            invariant
                g == id_generator@,
                i <= rels@.len(),
                relationships.directory_to_directory@ == dd,
                relationships.directory_to_file@ == df,
                relationships.file_to_definition@ == fd,
                relationships.file_to_imported_symbol@ == filter_map(rels@.take(i as int), |x| file_to_import_entry(g, x)),
                relationships.definition_to_definition@.len() == 0,
                relationships.definition_to_imported_symbol@.len() == 0,
                relationships.imported_symbol_to_imported_symbol@.len() == 0,
                relationships.imported_symbol_to_definition@.len() == 0,
                relationships.imported_symbol_to_file@.len() == 0,
            decreases rels@.len() - i,
        {
            proof {
                lemma_filter_map_step(rels@, |x| file_to_import_entry(g, x), i as int);
            }
            let file_rel = &rels[i];
            i = i + 1;
            let source_id = match id_generator.get_file_id(file_rel.file_path.as_str()) {
                Some(id) => id,
                None => {
                    continue;
                },
            };
            let target_id = match id_generator.get_imported_symbol_id(&file_rel.import_location) {
                Some(id) => id,
                None => {
                    continue;
                },
            };
            let relationship_type = relationship_mapping.get_type_id(file_rel.relationship_type);
            relationships.file_to_imported_symbol.push(ConsolidatedRelationship {
                source_id: Some(source_id),
                target_id: Some(target_id),
                relationship_type,
                start_byte: None,
                end_byte: None,
                start_line: None,
                end_line: None,
                start_column: None,
                end_column: None,
            });
        }
        assert(rels@.take(rels@.len() as int) =~= rels@);

        // Process definition-to-definition relationships
        let rels = &graph_data.definition_relationships;
        let ghost fi = relationships.file_to_imported_symbol@;
        let mut i: usize = 0;
        while i < rels.len()
            invariant
                g == id_generator@,
                i <= rels@.len(),
                relationships.directory_to_directory@ == dd,
                relationships.directory_to_file@ == df,
                relationships.file_to_definition@ == fd,
                relationships.file_to_imported_symbol@ == fi,
                relationships.definition_to_definition@ == filter_map(
                    rels@.take(i as int),
                    |x| definition_to_definition_entry(g, x),
                ),
                relationships.definition_to_imported_symbol@.len() == 0,
                relationships.imported_symbol_to_imported_symbol@.len() == 0,
                relationships.imported_symbol_to_definition@.len() == 0,
                relationships.imported_symbol_to_file@.len() == 0,
            decreases rels@.len() - i,
        {
            proof {
                lemma_filter_map_step(rels@, |x| definition_to_definition_entry(g, x), i as int);
            }
            let def_rel = &rels[i];
            i = i + 1;
            let from_range = def_rel.from_location.to_range();
            let source_id = match id_generator.get_definition_id(def_rel.from_file_path.as_str(), &from_range) {
                Some(id) => id,
                None => {
                    continue;
                },
            };
            let to_range = def_rel.to_location.to_range();
            let target_id = match id_generator.get_definition_id(def_rel.to_file_path.as_str(), &to_range) {
                Some(id) => id,
                None => {
                    continue;
                },
            };
            let relationship_type = relationship_mapping.get_type_id(def_rel.relationship_type);
            relationships.definition_to_definition.push(ConsolidatedRelationship {
                source_id: Some(source_id),
                target_id: Some(target_id),
                relationship_type,
                start_byte: None,
                end_byte: None,
                start_line: None,
                end_line: None,
                start_column: None,
                end_column: None,
            });
        }
        assert(rels@.take(rels@.len() as int) =~= rels@);

        // Process definition-to-imported-symbol relationships
        let rels = &graph_data.definition_imported_symbol_relationships;
        let ghost ddef = relationships.definition_to_definition@;
        let mut i: usize = 0;
        while i < rels.len()
            invariant
                g == id_generator@,
                i <= rels@.len(),
                relationships.directory_to_directory@ == dd,
                relationships.directory_to_file@ == df,
                relationships.file_to_definition@ == fd,
                relationships.file_to_imported_symbol@ == fi,
                relationships.definition_to_definition@ == ddef,
                relationships.definition_to_imported_symbol@ == filter_map(
                    rels@.take(i as int),
                    |x| definition_to_import_entry(g, x),
                ),
                relationships.imported_symbol_to_imported_symbol@.len() == 0,
                relationships.imported_symbol_to_definition@.len() == 0,
                relationships.imported_symbol_to_file@.len() == 0,
            decreases rels@.len() - i,
        {
            proof {
                lemma_filter_map_step(rels@, |x| definition_to_import_entry(g, x), i as int);
            }
            let def_rel = &rels[i];
            i = i + 1;
            let from_range = def_rel.definition_location.to_range();
            let source_id = match id_generator.get_definition_id(def_rel.file_path.as_str(), &from_range) {
                Some(id) => id,
                None => {
                    continue;
                },
            };
            let target_id = match id_generator.get_imported_symbol_id(&def_rel.imported_symbol_location) {
                Some(id) => id,
                None => {
                    continue;
                },
            };
            let relationship_type = relationship_mapping.get_type_id(def_rel.relationship_type);
            relationships.definition_to_imported_symbol.push(ConsolidatedRelationship {
                source_id: Some(source_id),
                target_id: Some(target_id),
                relationship_type,
                start_byte: None,
                end_byte: None,
                start_line: None,
                end_line: None,
                start_column: None,
                end_column: None,
            });
        }
        assert(rels@.take(rels@.len() as int) =~= rels@);
        relationships
    }
}

} // verus!
