//! Resolving Python imports: what each import statement brings in, among
//! the files it may come from.

use vstd::prelude::*;
use crate::analysis::definition_map::{key_index, keys_unique, lookup_entry, DefinitionEntry, DefinitionMap};
use crate::analysis::import_map::{
    identifier_view, import_keys, import_keys_unique, import_location_view, node_view, ImportEntryView, ImportNodeView,
    ImportedSymbolMap,
};
use crate::analysis::import_resolution::{entries_map, ImportChainMap, ImportDefinitionMap, ImportFileMap};
use crate::analysis::languages::definitions::LocationView;
use crate::analysis::languages::python::PythonAnalyzer;
use crate::analysis::types::{DefinitionNode, ImportIdentifier, ImportedSymbolNode};
use crate::text::str_eq;

verus! {

/// How a Python import statement names what it brings in.
#[derive(Debug, Clone, Copy, PartialEq, Eq, Structural)]
pub enum PythonImportKind {
    /// `from __future__ import ...`, with or without an alias
    Future,
    /// `import a.b`, with or without an alias
    Import,
    /// `from a import *`, also relative
    Wildcard,
    /// `from a import b`, with or without an alias, also relative
    From,
}

/// One imported symbol to resolve: the symbol, how it is imported, and the
/// files it may come from, most likely first.
pub struct ImportCandidate {
    pub node: ImportedSymbolNode,
    pub kind: PythonImportKind,
    pub possible_files: Vec<String>,
}

/// Whether a symbol brings in `name`: its alias when it has one, else its
/// name.
pub open spec fn symbol_matches(v: ImportNodeView, name: Seq<char>) -> bool {
    match v.1 {
        Some(id) => match id.1 {
            Some(a) => a == name,
            None => id.0 == name,
        },
        None => false,
    }
}

/// The symbol that brings in `name` and starts latest, the last of those
/// that start latest.
pub open spec fn latest_match(vs: Seq<ImportNodeView>, name: Seq<char>) -> Option<ImportNodeView>
    decreases vs.len(),
{
    if vs.len() == 0 {
        None
    } else {
        let b = latest_match(vs.drop_last(), name);
        let l = vs.last();
        if symbol_matches(l, name) && (match b {
            Some(x) => l.2.1 >= x.2.1,
            None => true,
        }) {
            Some(l)
        } else {
            b
        }
    }
}

/// The symbols imported at the top level of file `f`.
pub open spec fn file_symbols(ims: Seq<ImportEntryView>, f: Seq<char>) -> Seq<ImportNodeView> {
    match key_index(import_keys(ims), (Seq::<char>::empty(), f)) {
        Some(i) => ims[i].2,
        None => Seq::empty(),
    }
}

/// What `name` resolves to in each of the files `files`: the definition of
/// that name in the file, or the latest top-level import that brings it
/// in, whichever starts later (the definition on a tie); symbols and
/// definitions in file order.
pub open spec fn matched(
    definitions: Seq<DefinitionEntry>,
    ims: Seq<ImportEntryView>,
    name: Seq<char>,
    files: Seq<Seq<char>>,
) -> (Seq<ImportNodeView>, Seq<DefinitionNode>)
    decreases files.len(),
{
    if files.len() == 0 {
        (Seq::empty(), Seq::empty())
    } else {
        let p = matched(definitions, ims, name, files.drop_last());
        let f = files.last();
        let d = match lookup_entry(definitions, name, f) {
            Some(i) => Some(definitions[i].node),
            None => None,
        };
        let s = latest_match(file_symbols(ims, f), name);
        match (d, s) {
            (Some(dn), Some(sv)) => if sv.2.1 > dn.location.start_byte {
                (p.0.push(sv), p.1)
            } else {
                (p.0, p.1.push(dn))
            },
            (Some(dn), None) => (p.0, p.1.push(dn)),
            (None, Some(sv)) => (p.0.push(sv), p.1),
            (None, None) => p,
        }
    }
}

/// The three resolution maps by value: re-imported symbols, definitions
/// and files, each by the location of the importing symbol.
pub type ResolutionViews = (
    Map<LocationView, Seq<ImportNodeView>>,
    Map<LocationView, Seq<DefinitionNode>>,
    Map<LocationView, Seq<Seq<char>>>,
);

pub open spec fn resolution_views(s: &ImportChainMap, d: &ImportDefinitionMap, f: &ImportFileMap) -> ResolutionViews {
    (
        entries_map(s.entries@).map_values(|ns: Seq<ImportedSymbolNode>| ns.map_values(|n: ImportedSymbolNode| node_view(n))),
        entries_map(d.entries@),
        entries_map(f.entries@).map_values(|fs: Seq<String>| fs.map_values(|x: String| x@)),
    )
}

/// Resolving one candidate: a future import files nothing; a plain or
/// wildcard import files the first possible file, when there is one; an
/// import from a module files, for the name it imports, the symbols and
/// the definitions it resolves to among the possible files.
pub open spec fn candidate_step(
    st: ResolutionViews,
    c: ImportCandidate,
    definitions: Seq<DefinitionEntry>,
    ims: Seq<ImportEntryView>,
) -> ResolutionViews {
    let k = import_location_view(c.node.location);
    match c.kind {
        PythonImportKind::Future => st,
        PythonImportKind::Import | PythonImportKind::Wildcard => if c.possible_files@.len() > 0 {
            (st.0, st.1, st.2.insert(k, seq![c.possible_files@[0]@]))
        } else {
            st
        },
        PythonImportKind::From => match c.node.identifier {
            Some(id) => {
                let m = matched(definitions, ims, id.name@, c.possible_files@.map_values(|x: String| x@));
                (st.0.insert(k, m.0), st.1.insert(k, m.1), st.2)
            },
            None => st,
        },
    }
}

/// Resolving the candidates in order.
pub open spec fn resolved_imports(
    st: ResolutionViews,
    cs: Seq<ImportCandidate>,
    definitions: Seq<DefinitionEntry>,
    ims: Seq<ImportEntryView>,
) -> ResolutionViews
    decreases cs.len(),
{
    if cs.len() == 0 {
        st
    } else {
        candidate_step(resolved_imports(st, cs.drop_last(), definitions, ims), cs.last(), definitions, ims)
    }
}

fn symbol_matches_exec(n: &ImportedSymbolNode, name: &str) -> (r: bool)
    ensures
        r == symbol_matches(node_view(*n), name@),
{
    match &n.identifier {
        Some(id) => match &id.alias {
            Some(a) => str_eq(a.as_str(), name),
            None => str_eq(id.name.as_str(), name),
        },
        None => false,
    }
}

/// The index of the symbol `latest_match` picks.
fn latest_match_index(ns: &Vec<ImportedSymbolNode>, name: &str) -> (r: Option<usize>)
    ensures
        match r {
            Some(i) => i < ns@.len() && latest_match(ns@.map_values(|n: ImportedSymbolNode| node_view(n)), name@) == Some(node_view(ns@[i as int])),
            None => latest_match(ns@.map_values(|n: ImportedSymbolNode| node_view(n)), name@) is None,
        },
{
    let ghost vs = ns@.map_values(|n: ImportedSymbolNode| node_view(n));
    let mut best: Option<usize> = None;
    let mut j: usize = 0;
    while j < ns.len()
        invariant
            vs == ns@.map_values(|n: ImportedSymbolNode| node_view(n)),
            j <= ns@.len(),
            match best {
                Some(i) => i < j && latest_match(vs.take(j as int), name@) == Some(node_view(ns@[i as int])),
                None => latest_match(vs.take(j as int), name@) is None,
            },
        decreases ns@.len() - j,
    {
        assert(vs.take(j + 1).drop_last() =~= vs.take(j as int));
        assert(vs.take(j + 1).last() == node_view(ns@[j as int]));
        if symbol_matches_exec(&ns[j], name) {
            let later = match best {
                Some(i) => ns[j].location.start_byte >= ns[i].location.start_byte,
                None => true,
            };
            if later {
                best = Some(j);
            }
        }
        j = j + 1;
    }
    assert(vs.take(ns@.len() as int) =~= vs);
    best
}

fn duplicate_symbol(n: &ImportedSymbolNode) -> (c: ImportedSymbolNode)
    ensures
        c == *n,
{
    let identifier = match &n.identifier {
        Some(i) => Some(ImportIdentifier {
            name: i.name.clone(),
            alias: match &i.alias {
                Some(a) => Some(a.clone()),
                None => None,
            },
        }),
        None => None,
    };
    ImportedSymbolNode {
        import_type: n.import_type.duplicate(),
        import_path: n.import_path.clone(),
        identifier,
        location: n.location.duplicate(),
    }
}

fn duplicate_definition(d: &DefinitionNode) -> (c: DefinitionNode)
    ensures
        c == *d,
{
    DefinitionNode {
        fqn: d.fqn.clone(),
        name: d.name.clone(),
        definition_type: d.definition_type,
        location: d.location.duplicate(),
    }
}

/// The symbols and definitions `name` resolves to among `files`, as
/// `matched` states.
fn match_files(
    definition_map: &DefinitionMap,
    imported_symbol_map: &ImportedSymbolMap,
    name: &str,
    files: &Vec<String>,
) -> (r: (Vec<ImportedSymbolNode>, Vec<DefinitionNode>))
    requires
        keys_unique(definition_map@),
        import_keys_unique(imported_symbol_map@),
    ensures
        (r.0@.map_values(|n: ImportedSymbolNode| node_view(n)), r.1@)
            == matched(definition_map@, imported_symbol_map@, name@, files@.map_values(|x: String| x@)),
{
    let ghost fs = files@.map_values(|x: String| x@);
    let mut syms: Vec<ImportedSymbolNode> = Vec::new();
    let mut defs: Vec<DefinitionNode> = Vec::new();
    let mut j: usize = 0;
    while j < files.len()
        invariant
            fs == files@.map_values(|x: String| x@),
            keys_unique(definition_map@),
            import_keys_unique(imported_symbol_map@),
            j <= files@.len(),
            (syms@.map_values(|n: ImportedSymbolNode| node_view(n)), defs@)
                == matched(definition_map@, imported_symbol_map@, name@, fs.take(j as int)),
        decreases files@.len() - j,
    {
        assert(fs.take(j + 1).drop_last() =~= fs.take(j as int));
        assert(fs.take(j + 1).last() == files@[j as int]@);
        let f = files[j].as_str();
        let d = match definition_map.find(name, f) {
            Some(i) => Some(&definition_map.entry_at(i).node),
            None => None,
        };
        let s: Option<&ImportedSymbolNode> = match imported_symbol_map.get("", f) {
            Some(ns) => {
                proof {
                    reveal_strlit("");
                }
                match latest_match_index(ns, name) {
                    Some(i) => Some(&ns[i]),
                    None => None,
                }
            },
            None => None,
        };
        proof {
            reveal_strlit("");
            assert(""@ =~= Seq::<char>::empty());
        }
        let ghost sv = syms@;
        let ghost dv = defs@;
        match (d, s) {
            (Some(dn), Some(sn)) => {
                if sn.location.start_byte > dn.location.start_byte {
                    syms.push(duplicate_symbol(sn));
                    assert(syms@.map_values(|n: ImportedSymbolNode| node_view(n)) =~= sv.map_values(|n: ImportedSymbolNode| node_view(n)).push(node_view(*sn)));
                } else {
                    defs.push(duplicate_definition(dn));
                }
            },
            (Some(dn), None) => {
                defs.push(duplicate_definition(dn));
            },
            (None, Some(sn)) => {
                syms.push(duplicate_symbol(sn));
                assert(syms@.map_values(|n: ImportedSymbolNode| node_view(n)) =~= sv.map_values(|n: ImportedSymbolNode| node_view(n)).push(node_view(*sn)));
            },
            (None, None) => {},
        }
        j = j + 1;
    }
    assert(fs.take(files@.len() as int) =~= fs);
    (syms, defs)
}

impl PythonAnalyzer {
    /// Resolves each candidate in order into the three maps, as
    /// `resolved_imports` states: which files, definitions and symbols
    /// each import brings in.
    pub fn resolve_imported_symbols(
        &self,
        candidates: &Vec<ImportCandidate>,
        imported_symbol_map: &ImportedSymbolMap,
        definition_map: &DefinitionMap,
        imported_symbol_to_imported_symbols: &mut ImportChainMap,
        imported_symbol_to_definitions: &mut ImportDefinitionMap,
        imported_symbol_to_files: &mut ImportFileMap,
    )
        requires
            keys_unique(definition_map@),
            import_keys_unique(imported_symbol_map@),
        ensures
            resolution_views(final(imported_symbol_to_imported_symbols), final(imported_symbol_to_definitions), final(imported_symbol_to_files))
                == resolved_imports(
                    resolution_views(old(imported_symbol_to_imported_symbols), old(imported_symbol_to_definitions), old(imported_symbol_to_files)),
                    candidates@,
                    definition_map@,
                    imported_symbol_map@,
                ),
    {
        let ghost st = resolution_views(imported_symbol_to_imported_symbols, imported_symbol_to_definitions, imported_symbol_to_files);
        let mut i: usize = 0;
        while i < candidates.len()
            invariant
                keys_unique(definition_map@),
                import_keys_unique(imported_symbol_map@),
                i <= candidates@.len(),
                resolution_views(imported_symbol_to_imported_symbols, imported_symbol_to_definitions, imported_symbol_to_files)
                    == resolved_imports(st, candidates@.take(i as int), definition_map@, imported_symbol_map@),
            decreases candidates@.len() - i,
        {
            assert(candidates@.take(i + 1).drop_last() =~= candidates@.take(i as int));
            let c = &candidates[i];
            let ghost before = resolution_views(imported_symbol_to_imported_symbols, imported_symbol_to_definitions, imported_symbol_to_files);
            let ghost k = import_location_view(c.node.location);
            match c.kind {
                PythonImportKind::Future => {},
                PythonImportKind::Import | PythonImportKind::Wildcard => {
                    if c.possible_files.len() > 0 {
                        let first = vec![c.possible_files[0].clone()];
                        imported_symbol_to_files.insert(c.node.location.duplicate(), first);
                        proof {
                            assert(first@.map_values(|x: String| x@) =~= seq![c.possible_files@[0]@]);
                            assert(entries_map(imported_symbol_to_files.entries@).map_values(|fs: Seq<String>| fs.map_values(|x: String| x@))
                                =~= before.2.insert(k, seq![c.possible_files@[0]@]));
                        }
                    }
                },
                PythonImportKind::From => {
                    match &c.node.identifier {
                        Some(id) => {
                            let (syms, defs) = match_files(definition_map, imported_symbol_map, id.name.as_str(), &c.possible_files);
                            let ghost sv = syms@;
                            imported_symbol_to_imported_symbols.insert(c.node.location.duplicate(), syms);
                            imported_symbol_to_definitions.insert(c.node.location.duplicate(), defs);
                            proof {
                                assert(entries_map(imported_symbol_to_imported_symbols.entries@).map_values(|ns: Seq<ImportedSymbolNode>| ns.map_values(|n: ImportedSymbolNode| node_view(n)))
                                    =~= before.0.insert(k, sv.map_values(|n: ImportedSymbolNode| node_view(n))));
                            }
                        },
                        None => {},
                    }
                },
            }
            i = i + 1;
        }
        assert(candidates@.take(candidates@.len() as int) =~= candidates@);
    }
}

/// The latest symbol that brings in `name` is found among the symbols
/// exactly when one of them names `name` by the name it brings into the
/// importing file: its alias when it has one, its original name
/// otherwise. A symbol imported under an alias is found by the alias,
/// never by the name it had in the module it comes from, and a symbol with
/// no identifier brings in nothing. The one found starts no earlier than
/// any other that brings the name in.
pub proof fn lemma_latest_match_by_imported_name(vs: Seq<ImportNodeView>, name: Seq<char>)
    ensures
        (exists|i: int| 0 <= i < vs.len() && {
            ||| (#[trigger] vs[i]).1 == Some((name, None::<Seq<char>>))
            ||| exists|n: Seq<char>| vs[i].1 == Some((n, Some(name)))
        }) <==> latest_match(vs, name) is Some,
        latest_match(vs, name) matches Some(v) ==> {
            &&& vs.contains(v)
            &&& v.1 is Some
            &&& v.1.unwrap().1 matches Some(a) ==> a == name
            &&& v.1.unwrap().1 is None ==> v.1.unwrap().0 == name
            &&& forall|i: int| 0 <= i < vs.len() && symbol_matches(#[trigger] vs[i], name) ==> vs[i].2.1 <= v.2.1
        },
    decreases vs.len(),
{
    if vs.len() > 0 {
        let init = vs.drop_last();
        lemma_latest_match_by_imported_name(init, name);
        let l = vs.last();
        assert(vs[vs.len() - 1] == l);
        assert forall|i: int| 0 <= i < init.len() implies init[i] == vs[i] by {}
        if let Some(b) = latest_match(init, name) {
            assert(init.contains(b));
            let j = choose|j: int| 0 <= j < init.len() && init[j] == b;
            assert(vs[j] == b);
        }
        match l.1 {
            Some(id) => match id.1 {
                Some(a) => {
                    if a == name {
                        assert(l.1 == Some((id.0, Some(name))));
                    }
                },
                None => {
                    if id.0 == name {
                        assert(l.1 == Some((name, None::<Seq<char>>)));
                    }
                },
            },
            None => {},
        }
        if exists|i: int| 0 <= i < vs.len() && {
            ||| (#[trigger] vs[i]).1 == Some((name, None::<Seq<char>>))
            ||| exists|n: Seq<char>| vs[i].1 == Some((n, Some(name)))
        } {
            let i = choose|i: int| 0 <= i < vs.len() && {
                ||| (#[trigger] vs[i]).1 == Some((name, None::<Seq<char>>))
                ||| exists|n: Seq<char>| vs[i].1 == Some((n, Some(name)))
            };
            if i < init.len() {
                assert(init[i] == vs[i]);
            }
        }
        if let Some(v) = latest_match(vs, name) {
            assert forall|i: int| 0 <= i < vs.len() && symbol_matches(#[trigger] vs[i], name) implies vs[i].2.1 <= v.2.1 by {
                let l = vs.last();
                if i < init.len() {
                    assert(init[i] == vs[i]);
                    assert(symbol_matches(init[i], name));
                    let id = init[i].1.unwrap();
                    if id.1 is Some {
                        assert(init[i].1 == Some((id.0, Some(name))));
                    } else {
                        assert(init[i].1 == Some((name, None::<Seq<char>>)));
                    }
                    let b = latest_match(init, name);
                    assert(b is Some);
                    assert(init[i].2.1 <= b.unwrap().2.1);
                } else {
                    assert(vs[i] == l);
                }
            }
        }
    }
}

} // verus!
