//! Imported symbols keyed by the scope that imports them and the file they
//! are in, the filing of the imports parsed from a file, and the
//! relationships from definitions to the symbols imported inside them.

use vstd::prelude::*;
use crate::analysis::definition_map::{key_index, lemma_key_index_single, DefinitionEntry, DefinitionMap};
use crate::analysis::languages::definitions::{location_view, opt_location_view, span_location, LocationView};
use crate::analysis::languages::{fqn_text, fqn_to_string, DefinitionRules};
use crate::analysis::types::{
    DefinitionImportedSymbolRelationship, FileImportedSymbolRelationship, FqnPart, ImportIdentifier, ImportType,
    ImportedSymbolLocation, ImportedSymbolNode, Range,
};
use crate::graph::RelationshipType;
use crate::text::str_eq;

verus! {

/// An import as the parser reports it for one file.
#[derive(Debug, Clone)]
pub struct ParsedImport {
    /// The kind of import, in the terms of the file's language
    pub import_type: ImportType,
    pub import_path: String,
    pub identifier: Option<ImportIdentifier>,
    pub range: Range,
    /// The definition the import stands in, if it is not at file level
    pub scope: Option<Vec<FqnPart>>,
}

/// The location of an import, by value.
pub open spec fn import_location_view(l: ImportedSymbolLocation) -> LocationView {
    (l.file_path@, l.start_byte, l.end_byte, l.start_line, l.end_line, l.start_col, l.end_col)
}

/// An identifier by value: name and alias.
pub open spec fn identifier_view(i: Option<ImportIdentifier>) -> Option<(Seq<char>, Option<Seq<char>>)> {
    match i {
        Some(id) => Some((id.name@, match id.alias { Some(a) => Some(a@), None => None })),
        None => None,
    }
}

/// An imported symbol by value: import path, identifier, location and kind
/// of import.
pub type ImportNodeView = (Seq<char>, Option<(Seq<char>, Option<Seq<char>>)>, LocationView, ImportType);

pub open spec fn node_view(n: ImportedSymbolNode) -> ImportNodeView {
    (n.import_path@, identifier_view(n.identifier), import_location_view(n.location), n.import_type)
}

/// One key of the map with the symbols filed under it.
#[derive(Debug)]
pub struct ImportEntry {
    pub scope: String,
    pub file_path: String,
    pub nodes: Vec<ImportedSymbolNode>,
}

/// An entry by value.
pub type ImportEntryView = (Seq<char>, Seq<char>, Seq<ImportNodeView>);

pub open spec fn import_entry_view(e: ImportEntry) -> ImportEntryView {
    (e.scope@, e.file_path@, e.nodes@.map_values(|n: ImportedSymbolNode| node_view(n)))
}

pub open spec fn import_keys(es: Seq<ImportEntryView>) -> Seq<(Seq<char>, Seq<char>)> {
    es.map_values(|e: ImportEntryView| (e.0, e.1))
}

/// No key is filed twice.
pub open spec fn import_keys_unique(es: Seq<ImportEntryView>) -> bool {
    forall|i: int, j: int| 0 <= i < j < es.len() ==> (#[trigger] es[i]).0 != (#[trigger] es[j]).0 || es[i].1 != es[j].1
}

/// Imported symbols keyed by scope and file, in the order of first filing.
pub struct ImportedSymbolMap {
    entries: Vec<ImportEntry>,
}

impl View for ImportedSymbolMap {
    type V = Seq<ImportEntryView>;

    closed spec fn view(&self) -> Seq<ImportEntryView> {
        self.entries@.map_values(|e: ImportEntry| import_entry_view(e))
    }
}

/// Filing `nodes` under `key`: replacing what is there, or adding the key.
pub open spec fn filed_replacing(es: Seq<ImportEntryView>, key: (Seq<char>, Seq<char>), nodes: Seq<ImportNodeView>) -> Seq<ImportEntryView> {
    match key_index(import_keys(es), key) {
        Some(i) => es.update(i, (key.0, key.1, nodes)),
        None => es.push((key.0, key.1, nodes)),
    }
}

/// Filing one more symbol under `key`: after those there, or as the first.
pub open spec fn filed_appending(es: Seq<ImportEntryView>, key: (Seq<char>, Seq<char>), node: ImportNodeView) -> Seq<ImportEntryView> {
    match key_index(import_keys(es), key) {
        Some(i) => es.update(i, (key.0, key.1, es[i].2.push(node))),
        None => es.push((key.0, key.1, seq![node])),
    }
}

/// After a symbol is filed under a key, the symbols under that key are
/// those that were there followed by the new one.
pub proof fn lemma_appended_then_found(es: Seq<ImportEntryView>, key: (Seq<char>, Seq<char>), node: ImportNodeView)
    requires
        import_keys_unique(es),
    ensures
        key_index(import_keys(filed_appending(es, key, node)), key) matches Some(i) && filed_appending(es, key, node)[i].2
            == (match key_index(import_keys(es), key) {
            Some(j) => es[j].2,
            None => Seq::<ImportNodeView>::empty(),
        }).push(node),
{
    let f = filed_appending(es, key, node);
    let ks = import_keys(es);
    let fk = import_keys(f);
    match key_index(ks, key) {
        Some(i) => {
            assert(ks[i] == key);
            assert(f == es.update(i, (key.0, key.1, es[i].2.push(node))));
            assert(fk =~= ks);
            assert(key_index(fk, key) == Some(i));
            assert(f[i].2 == es[i].2.push(node));
        },
        None => {
            let n = es.len() as int;
            assert(f == es.push((key.0, key.1, seq![node])));
            assert(fk[n] == key);
            assert forall|j: int| 0 <= j < fk.len() && j != n implies fk[j] != key by {
                assert(fk[j] == ks[j]);
            }
            lemma_key_index_single(fk, key, n);
            assert(seq![node] =~= Seq::<ImportNodeView>::empty().push(node));
            assert(f[n].2 == seq![node]);
        },
    }
}

/// After symbols replace those under a key, exactly they are under it.
pub proof fn lemma_replaced_then_found(es: Seq<ImportEntryView>, key: (Seq<char>, Seq<char>), nodes: Seq<ImportNodeView>)
    requires
        import_keys_unique(es),
    ensures
        key_index(import_keys(filed_replacing(es, key, nodes)), key) matches Some(i) && filed_replacing(es, key, nodes)[i].2 == nodes,
{
    let f = filed_replacing(es, key, nodes);
    let ks = import_keys(es);
    let fk = import_keys(f);
    match key_index(ks, key) {
        Some(i) => {
            assert(ks[i] == key);
            assert(f == es.update(i, (key.0, key.1, nodes)));
            assert(fk =~= ks);
            assert(key_index(fk, key) == Some(i));
            assert(f[i].2 == nodes);
        },
        None => {
            let n = es.len() as int;
            assert(f == es.push((key.0, key.1, nodes)));
            assert(fk[n] == key);
            assert forall|j: int| 0 <= j < fk.len() && j != n implies fk[j] != key by {
                assert(fk[j] == ks[j]);
            }
            lemma_key_index_single(fk, key, n);
            assert(f[n].2 == nodes);
        },
    }
}

impl ImportedSymbolMap {
    pub fn new() -> (m: Self)
        ensures
            m@ == Seq::<ImportEntryView>::empty(),
    {
        let m = ImportedSymbolMap { entries: Vec::new() };
        assert(m@ =~= Seq::<ImportEntryView>::empty());
        m
    }

    pub fn len(&self) -> (n: usize)
        ensures
            n == self@.len(),
    {
        self.entries.len()
    }

    /// The position of the key `(scope, file_path)`.
    pub fn find(&self, scope: &str, file_path: &str) -> (r: Option<usize>)
        requires
            import_keys_unique(self@),
        ensures
            match r {
                Some(i) => key_index(import_keys(self@), (scope@, file_path@)) == Some(i as int),
                None => key_index(import_keys(self@), (scope@, file_path@)) is None,
            },
    {
        let ghost ks = import_keys(self@);
        let mut i: usize = 0;
        while i < self.entries.len()
            invariant
                ks == import_keys(self@),
                import_keys_unique(self@),
                i <= self@.len(),
                forall|j: int| 0 <= j < i ==> ks[j] != (scope@, file_path@),
            decreases self@.len() - i,
        {
            if str_eq(self.entries[i].scope.as_str(), scope) && str_eq(self.entries[i].file_path.as_str(), file_path) {
                proof {
                    assert(ks[i as int] == (scope@, file_path@));
                    let c = choose|c: int| 0 <= c < ks.len() && ks[c] == (scope@, file_path@);
                    if c != i as int {
                        if c < i {
                            assert(ks[c] != (scope@, file_path@));
                        } else {
                            assert(self@[i as int].0 != self@[c].0 || self@[i as int].1 != self@[c].1);
                        }
                    }
                }
                return Some(i);
            }
            i = i + 1;
        }
        None
    }

    /// The symbols filed under `(scope, file_path)`.
    pub fn get(&self, scope: &str, file_path: &str) -> (r: Option<&Vec<ImportedSymbolNode>>)
        requires
            import_keys_unique(self@),
        ensures
            match r {
                Some(v) => exists|i: int| key_index(import_keys(self@), (scope@, file_path@)) == Some(i)
                    && self@[i].2 == v@.map_values(|n: ImportedSymbolNode| node_view(n)),
                None => key_index(import_keys(self@), (scope@, file_path@)) is None,
            },
    {
        match self.find(scope, file_path) {
            Some(i) => {
                assert(self@[i as int] == import_entry_view(self.entries@[i as int]));
                Some(&self.entries[i].nodes)
            },
            None => None,
        }
    }

    proof fn lemma_unique_after(old_es: Seq<ImportEntryView>, new_es: Seq<ImportEntryView>, key: (Seq<char>, Seq<char>))
        requires
            import_keys_unique(old_es),
            key_index(import_keys(old_es), key) is None ==> new_es.len() == old_es.len() + 1
                && new_es.drop_last() == old_es && (new_es.last().0, new_es.last().1) == key,
            key_index(import_keys(old_es), key) matches Some(i) ==> new_es.len() == old_es.len()
                && (forall|j: int| 0 <= j < old_es.len() && j != i ==> new_es[j] == old_es[j])
                && (new_es[i].0, new_es[i].1) == key,
        ensures
            import_keys_unique(new_es),
    {
        let ks = import_keys(old_es);
        match key_index(ks, key) {
            Some(i) => {
                assert(ks[i] == key);
                assert forall|a: int, b: int| 0 <= a < b < new_es.len() implies (#[trigger] new_es[a]).0
                    != (#[trigger] new_es[b]).0 || new_es[a].1 != new_es[b].1 by {
                    assert(ks[a] == (old_es[a].0, old_es[a].1));
                    assert(ks[b] == (old_es[b].0, old_es[b].1));
                }
            },
            None => {
                assert forall|a: int, b: int| 0 <= a < b < new_es.len() implies (#[trigger] new_es[a]).0
                    != (#[trigger] new_es[b]).0 || new_es[a].1 != new_es[b].1 by {
                    assert(new_es[a] == old_es[a]);
                    assert(ks[a] == (old_es[a].0, old_es[a].1));
                    if b < old_es.len() {
                        assert(new_es[b] == old_es[b]);
                    }
                }
            },
        }
    }

    /// Files `nodes` under `(scope, file_path)`, replacing what is there.
    pub fn replace(&mut self, scope: String, file_path: String, nodes: Vec<ImportedSymbolNode>)
        requires
            import_keys_unique(old(self)@),
        ensures
            import_keys_unique(final(self)@),
            final(self)@ == filed_replacing(old(self)@, (scope@, file_path@), nodes@.map_values(|n: ImportedSymbolNode| node_view(n))),
    {
        let ghost before = self@;
        let ghost key = (scope@, file_path@);
        let ghost nv = nodes@.map_values(|n: ImportedSymbolNode| node_view(n));
        let found = self.find(scope.as_str(), file_path.as_str());
        let e = ImportEntry { scope, file_path, nodes };
        match found {
            Some(i) => {
                self.entries.set(i, e);
                assert(self@ =~= before.update(i as int, (key.0, key.1, nv)));
            },
            None => {
                self.entries.push(e);
                assert(self@ =~= before.push((key.0, key.1, nv)));
                assert(self@.drop_last() =~= before);
            },
        }
        proof {
            Self::lemma_unique_after(before, self@, key);
        }
    }

    /// Files `node` under `(scope, file_path)`, after the symbols there.
    pub fn append(&mut self, scope: String, file_path: String, node: ImportedSymbolNode)
        requires
            import_keys_unique(old(self)@),
        ensures
            import_keys_unique(final(self)@),
            final(self)@ == filed_appending(old(self)@, (scope@, file_path@), node_view(node)),
    {
        let ghost before = self@;
        let ghost key = (scope@, file_path@);
        let ghost nv = node_view(node);
        match self.find(scope.as_str(), file_path.as_str()) {
            Some(i) => {
                let mut e = self.entries.remove(i);
                let ghost old_e = e;
                e.nodes.push(node);
                self.entries.insert(i, e);
                proof {
                    assert(before[i as int] == import_entry_view(old_e));
                    assert(import_entry_view(e) =~= (key.0, key.1, before[i as int].2.push(nv)));
                    assert(self@ =~= before.update(i as int, (key.0, key.1, before[i as int].2.push(nv))));
                }
            },
            None => {
                let e = ImportEntry { scope, file_path, nodes: vec![node] };
                self.entries.push(e);
                assert(import_entry_view(e).2 =~= seq![nv]);
                assert(self@ =~= before.push((key.0, key.1, seq![nv])));
                assert(self@.drop_last() =~= before);
            },
        }
        proof {
            Self::lemma_unique_after(before, self@, key);
        }
    }
}

/// The identifier filed for an import: Rust files the import path as the
/// name of an import that names no identifier.
pub open spec fn parsed_identifier(rules: DefinitionRules, imp: ParsedImport) -> Option<(Seq<char>, Option<Seq<char>>)> {
    if rules == DefinitionRules::Rust && imp.identifier is None {
        Some((imp.import_path@, None))
    } else {
        identifier_view(imp.identifier)
    }
}

/// The symbol filed for an import of file `file_path`.
pub open spec fn parsed_node(rules: DefinitionRules, file_path: Seq<char>, imp: ParsedImport) -> ImportNodeView {
    (imp.import_path@, parsed_identifier(rules, imp), span_location(file_path, imp.range), imp.import_type)
}

/// The key an import is filed under: C# and Java file by import path and
/// file, Kotlin by import path alone, the others by the enclosing scope's
/// name (empty at file level) and file.
pub open spec fn parsed_key(rules: DefinitionRules, file_path: Seq<char>, imp: ParsedImport) -> (Seq<char>, Seq<char>) {
    match rules {
        DefinitionRules::CSharp => (imp.import_path@, file_path),
        DefinitionRules::Java => (imp.import_path@, file_path),
        DefinitionRules::Kotlin => (imp.import_path@, Seq::<char>::empty()),
        _ => (
            match imp.scope {
                Some(p) => fqn_text(rules, p@),
                None => Seq::<char>::empty(),
            },
            file_path,
        ),
    }
}

/// Whether an import replaces the symbols under its key (C#, Java,
/// Kotlin) rather than joining them.
pub open spec fn replaces(rules: DefinitionRules) -> bool {
    rules == DefinitionRules::CSharp || rules == DefinitionRules::Java || rules == DefinitionRules::Kotlin
}

/// A file-import relationship by value: file, import location, type.
pub type FileImportView = (Seq<char>, LocationView, RelationshipType);

pub open spec fn file_import_view(r: FileImportedSymbolRelationship) -> FileImportView {
    (r.file_path@, import_location_view(r.import_location), r.relationship_type)
}

/// Filing one import: its symbol under its key, and the file's import.
pub open spec fn import_step(
    rules: DefinitionRules,
    file_path: Seq<char>,
    st: (Seq<ImportEntryView>, Seq<FileImportView>),
    imp: ParsedImport,
) -> (Seq<ImportEntryView>, Seq<FileImportView>) {
    let node = parsed_node(rules, file_path, imp);
    let key = parsed_key(rules, file_path, imp);
    (
        if replaces(rules) { filed_replacing(st.0, key, seq![node]) } else { filed_appending(st.0, key, node) },
        st.1.push((file_path, node.2, RelationshipType::FileImports)),
    )
}

/// Filing the imports of a file in order.
pub open spec fn processed_imports(
    rules: DefinitionRules,
    file_path: Seq<char>,
    st: (Seq<ImportEntryView>, Seq<FileImportView>),
    imps: Seq<ParsedImport>,
) -> (Seq<ImportEntryView>, Seq<FileImportView>)
    decreases imps.len(),
{
    if imps.len() == 0 {
        st
    } else {
        import_step(rules, file_path, processed_imports(rules, file_path, st, imps.drop_last()), imps.last())
    }
}

fn duplicate_identifier(i: &Option<ImportIdentifier>) -> (r: Option<ImportIdentifier>)
    ensures
        identifier_view(r) == identifier_view(*i),
{
    match i {
        Some(id) => Some(
            ImportIdentifier {
                name: id.name.clone(),
                alias: match &id.alias {
                    Some(a) => Some(a.clone()),
                    None => None,
                },
            },
        ),
        None => None,
    }
}

fn duplicate_import_location(l: &ImportedSymbolLocation) -> (r: ImportedSymbolLocation)
    ensures
        import_location_view(r) == import_location_view(*l),
{
    l.duplicate()
}

/// The location of a span of file `file_path`, for an import.
pub(crate) fn span_to_import_location(file_path: &str, range: &Range) -> (l: ImportedSymbolLocation)
    ensures
        import_location_view(l) == span_location(file_path@, *range),
{
    ImportedSymbolLocation {
        file_path: String::from_str(file_path),
        start_byte: range.byte_offset.0 as i64,
        end_byte: range.byte_offset.1 as i64,
        start_line: range.start.line as i32,
        end_line: range.end.line as i32,
        start_col: range.start.column as i32,
        end_col: range.end.column as i32,
    }
}

/// Files each parsed import of the file `relative_file_path` and records
/// the file's imports, as `processed_imports` states.
pub fn process_imports(
    rules: DefinitionRules,
    imports: &Vec<ParsedImport>,
    relative_file_path: &str,
    imported_symbol_map: &mut ImportedSymbolMap,
    file_import_relationships: &mut Vec<FileImportedSymbolRelationship>,
)
    requires
        import_keys_unique(old(imported_symbol_map)@),
    ensures
        import_keys_unique(final(imported_symbol_map)@),
        (final(imported_symbol_map)@, final(file_import_relationships)@.map_values(|r: FileImportedSymbolRelationship| file_import_view(r)))
            == processed_imports(
                rules,
                relative_file_path@,
                (old(imported_symbol_map)@, old(file_import_relationships)@.map_values(|r: FileImportedSymbolRelationship| file_import_view(r))),
                imports@,
            ),
{
    let ghost start = (imported_symbol_map@, file_import_relationships@.map_values(|r: FileImportedSymbolRelationship| file_import_view(r)));
    let mut i: usize = 0;
    while i < imports.len()
        invariant
            i <= imports@.len(),
            import_keys_unique(imported_symbol_map@),
            (imported_symbol_map@, file_import_relationships@.map_values(|r: FileImportedSymbolRelationship| file_import_view(r)))
                == processed_imports(rules, relative_file_path@, start, imports@.take(i as int)),
        decreases imports@.len() - i,
    {
        proof {
            assert(imports@.take(i + 1).drop_last() =~= imports@.take(i as int));
        }
        let imp = &imports[i];
        let location = span_to_import_location(relative_file_path, &imp.range);
        let identifier = if rules == DefinitionRules::Rust && imp.identifier.is_none() {
            Some(ImportIdentifier { name: imp.import_path.clone(), alias: None })
        } else {
            duplicate_identifier(&imp.identifier)
        };
        let node = ImportedSymbolNode {
            import_type: imp.import_type.duplicate(),
            import_path: imp.import_path.clone(),
            identifier,
            location: duplicate_import_location(&location),
        };
        assert(node_view(node) == parsed_node(rules, relative_file_path@, *imp));
        let (scope, key_file): (String, String) = match rules {
            DefinitionRules::CSharp => (imp.import_path.clone(), String::from_str(relative_file_path)),
            DefinitionRules::Java => (imp.import_path.clone(), String::from_str(relative_file_path)),
            DefinitionRules::Kotlin => (imp.import_path.clone(), String::new()),
            _ => (
                match &imp.scope {
                    Some(p) => fqn_to_string(rules, p),
                    None => String::new(),
                },
                String::from_str(relative_file_path),
            ),
        };
        assert((scope@, key_file@) == parsed_key(rules, relative_file_path@, *imp));
        let ghost node_v = node_view(node);
        if rules == DefinitionRules::CSharp || rules == DefinitionRules::Java || rules == DefinitionRules::Kotlin {
            let v = vec![node];
            assert(v@.map_values(|n: ImportedSymbolNode| node_view(n)) =~= seq![node_v]);
            imported_symbol_map.replace(scope, key_file, v);
        } else {
            imported_symbol_map.append(scope, key_file, node);
        }
        let rel = FileImportedSymbolRelationship {
            file_path: String::from_str(relative_file_path),
            import_location: location,
            relationship_type: RelationshipType::FileImports,
        };
        let ghost before = file_import_relationships@;
        file_import_relationships.push(rel);
        proof {
            assert(file_import_relationships@.map_values(|r: FileImportedSymbolRelationship| file_import_view(r))
                =~= before.map_values(|r: FileImportedSymbolRelationship| file_import_view(r)).push(file_import_view(rel)));
        }
        i = i + 1;
    }
    assert(imports@.take(imports@.len() as int) =~= imports@);
}

/// A definition-import relationship by value: file, definition name,
/// import location, type, definition location.
pub type DefinitionImportView = (Seq<char>, Seq<char>, LocationView, RelationshipType, LocationView, Option<LocationView>);

pub open spec fn definition_import_view(r: DefinitionImportedSymbolRelationship) -> DefinitionImportView {
    (
        r.file_path@,
        r.definition_fqn@,
        import_location_view(r.imported_symbol_location),
        r.relationship_type,
        location_view(r.definition_location),
        opt_location_view(r.source_location),
    )
}

/// The relationships from a definition to the symbols imported inside it:
/// those filed under its name and file.
pub open spec fn entry_imports(e: DefinitionEntry, ims: Seq<ImportEntryView>) -> Seq<DefinitionImportView> {
    match key_index(import_keys(ims), (e.fqn@, e.file_path@)) {
        Some(i) => ims[i].2.map_values(
            |n: ImportNodeView|
                (e.file_path@, e.fqn@, n.2, RelationshipType::DefinesImportedSymbol, location_view(e.node.location), None::<LocationView>),
        ),
        None => Seq::empty(),
    }
}

/// The relationships from each definition to its imported symbols, in
/// the order of the definitions.
pub open spec fn definition_imports(es: Seq<DefinitionEntry>, ims: Seq<ImportEntryView>) -> Seq<DefinitionImportView>
    decreases es.len(),
{
    if es.len() == 0 {
        Seq::empty()
    } else {
        definition_imports(es.drop_last(), ims) + entry_imports(es.last(), ims)
    }
}

/// Appends the relationship from each definition to each symbol imported
/// inside it.
pub fn add_definition_import_relationships(
    definition_map: &DefinitionMap,
    imported_symbol_map: &ImportedSymbolMap,
    out: &mut Vec<DefinitionImportedSymbolRelationship>,
)
    requires
        import_keys_unique(imported_symbol_map@),
    ensures
        final(out)@.map_values(|r: DefinitionImportedSymbolRelationship| definition_import_view(r))
            == old(out)@.map_values(|r: DefinitionImportedSymbolRelationship| definition_import_view(r))
            + definition_imports(definition_map@, imported_symbol_map@),
{
    let ghost es = definition_map@;
    let ghost ims = imported_symbol_map@;
    let ghost start = out@.map_values(|r: DefinitionImportedSymbolRelationship| definition_import_view(r));
    let mut i: usize = 0;
    while i < definition_map.len()
        invariant
            es == definition_map@,
            ims == imported_symbol_map@,
            import_keys_unique(ims),
            i <= es.len(),
            out@.map_values(|r: DefinitionImportedSymbolRelationship| definition_import_view(r))
                == start + definition_imports(es.take(i as int), ims),
        decreases es.len() - i,
    {
        let e = definition_map.entry_at(i);
        proof {
            assert(es.take(i + 1).drop_last() =~= es.take(i as int));
            assert(es.take(i + 1).last() == *e);
        }
        let ghost mid = out@.map_values(|r: DefinitionImportedSymbolRelationship| definition_import_view(r));
        match imported_symbol_map.get(e.fqn.as_str(), e.file_path.as_str()) {
            Some(nodes) => {
                let ghost k = choose|k: int| key_index(import_keys(ims), (e.fqn@, e.file_path@)) == Some(k)
                    && ims[k].2 == nodes@.map_values(|n: ImportedSymbolNode| node_view(n));
                let ghost target = entry_imports(*e, ims);
                let mut j: usize = 0;
                while j < nodes.len()
                    invariant
                        j <= nodes@.len(),
                        target == nodes@.map_values(|n: ImportedSymbolNode| node_view(n)).map_values(
                            |n: ImportNodeView|
                                (e.file_path@, e.fqn@, n.2, RelationshipType::DefinesImportedSymbol, location_view(e.node.location), None::<LocationView>),
                        ),
                        out@.map_values(|r: DefinitionImportedSymbolRelationship| definition_import_view(r))
                            == mid + target.take(j as int),
                    decreases nodes@.len() - j,
                {
                    let rel = DefinitionImportedSymbolRelationship {
                        file_path: e.file_path.clone(),
                        definition_fqn: e.fqn.clone(),
                        imported_symbol_location: nodes[j].location.duplicate(),
                        relationship_type: RelationshipType::DefinesImportedSymbol,
                        definition_location: e.node.location.duplicate(),
                        source_location: None,
                    };
                    let ghost before = out@;
                    out.push(rel);
                    proof {
                        assert(definition_import_view(rel) == target[j as int]);
                        assert(out@.map_values(|r: DefinitionImportedSymbolRelationship| definition_import_view(r))
                            =~= before.map_values(|r: DefinitionImportedSymbolRelationship| definition_import_view(r)).push(definition_import_view(rel)));
                        assert(target.take(j + 1) =~= target.take(j as int).push(target[j as int]));
                    }
                    j = j + 1;
                }
                assert(target.take(j as int) =~= target);
            },
            None => {
                assert(entry_imports(*e, ims) =~= Seq::<DefinitionImportView>::empty());
            },
        }
        proof {
            assert(definition_imports(es.take(i + 1), ims) == definition_imports(es.take(i as int), ims) + entry_imports(*e, ims));
            assert(out@.map_values(|r: DefinitionImportedSymbolRelationship| definition_import_view(r))
                =~= start + definition_imports(es.take(i + 1), ims));
        }
        i = i + 1;
    }
    assert(es.take(es.len() as int) =~= es);
}

} // verus!
