//! Following Python imports to what they bring in: from an imported
//! symbol, through the symbols it re-imports, to the definitions and the
//! symbols at the ends of the chain.

use vstd::prelude::*;
use crate::analysis::import_map::import_location_view;
use crate::analysis::languages::definitions::LocationView;
use crate::analysis::types::{DefinitionLocation, DefinitionNode, ImportIdentifier, ImportedSymbolLocation, ImportedSymbolNode};
use crate::text::str_eq;

verus! {

/// The symbols each imported symbol re-imports, by the symbol's location.
pub struct ImportChainMap {
    pub entries: Vec<(ImportedSymbolLocation, Vec<ImportedSymbolNode>)>,
}

/// The definitions each imported symbol resolves to.
pub struct ImportDefinitionMap {
    pub entries: Vec<(ImportedSymbolLocation, Vec<DefinitionNode>)>,
}

/// The files each imported symbol resolves to.
pub struct ImportFileMap {
    pub entries: Vec<(ImportedSymbolLocation, Vec<String>)>,
}

/// What following an import ends at.
#[derive(Debug, Clone)]
pub enum ResolvedTarget {
    ImportedSymbol(ImportedSymbolNode),
    Definition(DefinitionNode),
}

/// The values filed under the location `k`: those of the first entry at
/// that location.
pub open spec fn lookup<T>(es: Seq<(ImportedSymbolLocation, Vec<T>)>, k: LocationView) -> Option<Seq<T>>
    decreases es.len(),
{
    if es.len() == 0 {
        None
    } else if import_location_view(es[0].0) == k {
        Some(es[0].1@)
    } else {
        lookup(es.skip(1), k)
    }
}

/// The locations a map files values under.
pub open spec fn keys_of<T>(es: Seq<(ImportedSymbolLocation, Vec<T>)>) -> Set<LocationView> {
    es.map_values(|e: (ImportedSymbolLocation, Vec<T>)| import_location_view(e.0)).to_set()
}

/// Every location any of the three maps files values under.
pub open spec fn all_keys(
    syms: Seq<(ImportedSymbolLocation, Vec<ImportedSymbolNode>)>,
    defs: Seq<(ImportedSymbolLocation, Vec<DefinitionNode>)>,
    files: Seq<(ImportedSymbolLocation, Vec<String>)>,
) -> Set<LocationView> {
    keys_of(syms) + keys_of(defs) + keys_of(files)
}

/// A symbol ends a chain when none of the maps files anything under it.
pub open spec fn is_terminal(
    syms: Seq<(ImportedSymbolLocation, Vec<ImportedSymbolNode>)>,
    defs: Seq<(ImportedSymbolLocation, Vec<DefinitionNode>)>,
    files: Seq<(ImportedSymbolLocation, Vec<String>)>,
    l: LocationView,
) -> bool {
    !all_keys(syms, defs, files).contains(l)
}

/// The definitions filed under `k`, as targets.
pub open spec fn definition_targets_at(defs: Seq<(ImportedSymbolLocation, Vec<DefinitionNode>)>, k: LocationView) -> Seq<ResolvedTarget> {
    match lookup(defs, k) {
        Some(ds) => ds.map_values(|d: DefinitionNode| ResolvedTarget::Definition(d)),
        None => Seq::empty(),
    }
}

/// Following the symbol at `cur`, with the locations in `visited` already
/// followed: nothing when it was followed before; else its re-imported
/// symbols in order (a symbol that ends a chain is a target, another one
/// is followed in turn), then the definitions filed under it. The result
/// is the targets and the locations followed after, or `None` where a file
/// is filed under a location followed, a case that is not handled.
pub open spec fn resolve_at(
    syms: Seq<(ImportedSymbolLocation, Vec<ImportedSymbolNode>)>,
    defs: Seq<(ImportedSymbolLocation, Vec<DefinitionNode>)>,
    files: Seq<(ImportedSymbolLocation, Vec<String>)>,
    cur: LocationView,
    visited: Set<LocationView>,
    fuel: nat,
) -> Option<(Seq<ResolvedTarget>, Set<LocationView>)>
    decreases fuel, 0nat,
{
    if visited.contains(cur) || fuel == 0 {
        Some((Seq::empty(), visited))
    } else {
        let v1 = visited.insert(cur);
        let after = match lookup(syms, cur) {
            Some(ns) => resolve_list(syms, defs, files, ns, v1, (fuel - 1) as nat),
            None => Some((Seq::empty(), v1)),
        };
        match after {
            None => None,
            Some(p) => if keys_of(files).contains(cur) {
                None
            } else {
                Some((p.0 + definition_targets_at(defs, cur), p.1))
            },
        }
    }
}

/// Following each of the symbols `ns` in order, as `resolve_at` does.
pub open spec fn resolve_list(
    syms: Seq<(ImportedSymbolLocation, Vec<ImportedSymbolNode>)>,
    defs: Seq<(ImportedSymbolLocation, Vec<DefinitionNode>)>,
    files: Seq<(ImportedSymbolLocation, Vec<String>)>,
    ns: Seq<ImportedSymbolNode>,
    visited: Set<LocationView>,
    fuel: nat,
) -> Option<(Seq<ResolvedTarget>, Set<LocationView>)>
    decreases fuel, ns.len(),
{
    if ns.len() == 0 {
        Some((Seq::empty(), visited))
    } else {
        match resolve_list(syms, defs, files, ns.drop_last(), visited, fuel) {
            None => None,
            Some(p) => {
                let n = ns.last();
                if is_terminal(syms, defs, files, import_location_view(n.location)) {
                    Some((p.0.push(ResolvedTarget::ImportedSymbol(n)), p.1))
                } else {
                    match resolve_at(syms, defs, files, import_location_view(n.location), p.1, fuel) {
                        None => None,
                        Some(q) => Some((p.0 + q.0, q.1)),
                    }
                }
            },
        }
    }
}

/// The targets of following the symbol at `start`, or `None` where the
/// chain reaches a location that files are filed under.
pub open spec fn resolved_targets(
    start: LocationView,
    syms: Seq<(ImportedSymbolLocation, Vec<ImportedSymbolNode>)>,
    defs: Seq<(ImportedSymbolLocation, Vec<DefinitionNode>)>,
    files: Seq<(ImportedSymbolLocation, Vec<String>)>,
) -> Option<Seq<ResolvedTarget>> {
    match resolve_at(syms, defs, files, start, Set::empty(), all_keys(syms, defs, files).len() + 1) {
        Some(p) => Some(p.0),
        None => None,
    }
}

proof fn lemma_lookup_key<T>(es: Seq<(ImportedSymbolLocation, Vec<T>)>, k: LocationView)
    ensures
        lookup(es, k) is Some ==> keys_of(es).contains(k),
    decreases es.len(),
{
    if es.len() > 0 {
        if import_location_view(es[0].0) == k {
            assert(es.map_values(|e: (ImportedSymbolLocation, Vec<T>)| import_location_view(e.0))[0] == k);
        } else {
            lemma_lookup_key(es.skip(1), k);
            if lookup(es, k) is Some {
                let s = es.skip(1).map_values(|e: (ImportedSymbolLocation, Vec<T>)| import_location_view(e.0));
                let j = choose|j: int| 0 <= j < s.len() && s[j] == k;
                assert(es.map_values(|e: (ImportedSymbolLocation, Vec<T>)| import_location_view(e.0))[j + 1] == k);
            }
        }
    }
}

proof fn lemma_keys_finite<T>(es: Seq<(ImportedSymbolLocation, Vec<T>)>)
    ensures
        keys_of(es).finite(),
{
    vstd::seq_lib::seq_to_set_is_finite(es.map_values(|e: (ImportedSymbolLocation, Vec<T>)| import_location_view(e.0)));
}

/// Whether two import locations are the same in every field.
fn same_location(a: &ImportedSymbolLocation, b: &ImportedSymbolLocation) -> (r: bool)
    ensures
        r == (import_location_view(*a) == import_location_view(*b)),
{
    str_eq(a.file_path.as_str(), b.file_path.as_str()) && a.start_byte == b.start_byte && a.end_byte == b.end_byte
        && a.start_line == b.start_line && a.end_line == b.end_line && a.start_col == b.start_col
        && a.end_col == b.end_col
}

fn find_in<T>(es: &Vec<(ImportedSymbolLocation, Vec<T>)>, k: &ImportedSymbolLocation) -> (r: Option<usize>)
    ensures
        match r {
            Some(i) => i < es@.len() && lookup(es@, import_location_view(*k)) == Some(es@[i as int].1@),
            None => lookup(es@, import_location_view(*k)) is None,
        },
{
    let mut i: usize = 0;
    assert(es@.skip(0) =~= es@);
    while i < es.len()
        invariant
            i <= es@.len(),
            lookup(es@, import_location_view(*k)) == lookup(es@.skip(i as int), import_location_view(*k)),
        decreases es@.len() - i,
    {
        assert(es@.skip(i as int)[0] == es@[i as int]);
        assert(es@.skip(i as int).skip(1) =~= es@.skip(i + 1));
        if same_location(&es[i].0, k) {
            return Some(i);
        }
        i = i + 1;
    }
    None
}

fn duplicate_location(l: &DefinitionLocation) -> (c: DefinitionLocation)
    ensures
        c == *l,
{
    l.duplicate()
}

/// A copy of a definition node.
fn duplicate_definition(d: &DefinitionNode) -> (c: DefinitionNode)
    ensures
        c == *d,
{
    DefinitionNode {
        fqn: d.fqn.clone(),
        name: d.name.clone(),
        definition_type: d.definition_type,
        location: duplicate_location(&d.location),
    }
}

/// A copy of an imported symbol node.
fn duplicate_symbol(n: &ImportedSymbolNode) -> (c: ImportedSymbolNode)
    ensures
        c == *n,
{
    let identifier = match &n.identifier {
        Some(i) => Some(ImportIdentifier {
            name: i.name.clone(),
            alias: match &i.alias {
                Some(a) => Some(a.clone()),
                None => None,
            },
        }),
        None => None,
    };
    ImportedSymbolNode {
        import_type: n.import_type.duplicate(),
        import_path: n.import_path.clone(),
        identifier,
        location: n.location.duplicate(),
    }
}

/// The locations of a list of visited symbols.
pub open spec fn visited_set(v: Seq<ImportedSymbolLocation>) -> Set<LocationView> {
    v.map_values(|l: ImportedSymbolLocation| import_location_view(l)).to_set()
}

proof fn lemma_visited_push(v: Seq<ImportedSymbolLocation>, l: ImportedSymbolLocation)
    ensures
        visited_set(v.push(l)) == visited_set(v).insert(import_location_view(l)),
{
    let a = v.push(l).map_values(|l: ImportedSymbolLocation| import_location_view(l));
    let b = v.map_values(|l: ImportedSymbolLocation| import_location_view(l));
    assert(a =~= b.push(import_location_view(l)));
    assert forall|x: LocationView| a.to_set().contains(x) == b.to_set().insert(import_location_view(l)).contains(x) by {
        if x == import_location_view(l) {
            assert(a[b.len() as int] == x);
        }
        if b.to_set().contains(x) {
            let j = choose|j: int| 0 <= j < b.len() && b[j] == x;
            assert(a[j] == x);
        }
        if a.to_set().contains(x) && x != import_location_view(l) {
            let j = choose|j: int| 0 <= j < a.len() && a[j] == x;
            assert(j < b.len());
            assert(b[j] == x);
        }
    }
    assert(a.to_set() =~= b.to_set().insert(import_location_view(l)));
}

fn is_visited(visited: &Vec<ImportedSymbolLocation>, l: &ImportedSymbolLocation) -> (r: bool)
    ensures
        r == visited_set(visited@).contains(import_location_view(*l)),
{
    let ghost s = visited@.map_values(|x: ImportedSymbolLocation| import_location_view(x));
    let mut i: usize = 0;
    while i < visited.len()
        invariant
            i <= visited@.len(),
            s == visited@.map_values(|x: ImportedSymbolLocation| import_location_view(x)),
            forall|j: int| 0 <= j < i ==> s[j] != import_location_view(*l),
        decreases visited@.len() - i,
    {
        if same_location(&visited[i], l) {
            assert(s[i as int] == import_location_view(*l));
            return true;
        }
        i = i + 1;
    }
    proof {
        if s.to_set().contains(import_location_view(*l)) {
            let j = choose|j: int| 0 <= j < s.len() && s[j] == import_location_view(*l);
            assert(false);
        }
    }
    false
}

proof fn lemma_diff_shrinks(k: Set<LocationView>, a: Set<LocationView>, b: Set<LocationView>)
    requires
        k.finite(),
        a.subset_of(b),
    ensures
        k.difference(b).len() <= k.difference(a).len(),
{
    vstd::set_lib::lemma_len_subset(k.difference(b), k.difference(a));
}

proof fn lemma_diff_insert(k: Set<LocationView>, a: Set<LocationView>, x: LocationView)
    requires
        k.finite(),
        k.contains(x),
        !a.contains(x),
    ensures
        k.difference(a.insert(x)).len() + 1 == k.difference(a).len(),
{
    assert(k.difference(a.insert(x)) =~= k.difference(a).remove(x));
}

/// Follows the symbol at `cur` as `resolve_at` states, adding the targets
/// to `results` and the locations followed to `visited`.
fn resolve_into(
    syms: &ImportChainMap,
    defs: &ImportDefinitionMap,
    files: &ImportFileMap,
    cur: &ImportedSymbolLocation,
    visited: &mut Vec<ImportedSymbolLocation>,
    results: &mut Vec<ResolvedTarget>,
    Ghost(fuel): Ghost<nat>,
)
    requires
        fuel > all_keys(syms.entries@, defs.entries@, files.entries@).difference(visited_set(old(visited)@)).len(),
        resolve_at(syms.entries@, defs.entries@, files.entries@, import_location_view(*cur), visited_set(old(visited)@), fuel) is Some,
    ensures
        resolve_at(syms.entries@, defs.entries@, files.entries@, import_location_view(*cur), visited_set(old(visited)@), fuel)
            == Some((final(results)@.subrange(old(results)@.len() as int, final(results)@.len() as int), visited_set(final(visited)@))),
        final(results)@.subrange(0, old(results)@.len() as int) == old(results)@,
        old(results)@.len() <= final(results)@.len(),
        visited_set(old(visited)@).subset_of(visited_set(final(visited)@)),
    decreases fuel,
{
    let ghost ks = all_keys(syms.entries@, defs.entries@, files.entries@);
    let ghost start_len = results@.len();
    let ghost v0 = visited_set(visited@);
    let ghost c = import_location_view(*cur);
    proof {
        lemma_keys_finite(syms.entries@);
        lemma_keys_finite(defs.entries@);
        lemma_keys_finite(files.entries@);
    }
    if is_visited(visited, cur) {
        assert(results@.subrange(start_len as int, results@.len() as int) =~= Seq::<ResolvedTarget>::empty());
        assert(results@.subrange(0, start_len as int) =~= results@);
        return;
    }
    let ghost before_push = visited@;
    visited.push(cur.duplicate());
    proof {
        lemma_visited_push(before_push, *cur);
    }
    let ghost v1 = visited_set(visited@);
    assert(v1 == v0.insert(c));
    match find_in(&syms.entries, cur) {
        Some(i) => {
            proof {
                lemma_lookup_key(syms.entries@, c);
                lemma_diff_insert(ks, v0, c);
            }
            let ns = &syms.entries[i].1;
            let ghost nsv = ns@;
            let mut j: usize = 0;
            while j < ns.len()
                invariant
                    nsv == ns@,
                    lookup(syms.entries@, c) == Some(nsv),
                    ks == all_keys(syms.entries@, defs.entries@, files.entries@),
                    ks.finite(),
                    fuel >= 1,
                    ks.difference(v1).len() + 1 < fuel,
                    j <= nsv.len(),
                    v1.subset_of(visited_set(visited@)),
                    v0.subset_of(v1),
                    start_len <= results@.len(),
                    results@.subrange(0, start_len as int) == old(results)@,
                    start_len == old(results)@.len(),
                    v0 == visited_set(old(visited)@),
                    resolve_at(syms.entries@, defs.entries@, files.entries@, c, v0, fuel) is Some,
                    !v0.contains(c),
                    v1 == v0.insert(c),
                    resolve_list(syms.entries@, defs.entries@, files.entries@, nsv.take(j as int), v1, (fuel - 1) as nat)
                        == Some((results@.subrange(start_len as int, results@.len() as int), visited_set(visited@))),
                decreases nsv.len() - j,
            {
                assert(nsv.take(j + 1).drop_last() =~= nsv.take(j as int));
                assert(nsv.take(j + 1).last() == nsv[j as int]);
                proof {
                    lemma_list_prefix_some(syms.entries@, defs.entries@, files.entries@, nsv, j as int + 1, v1, (fuel - 1) as nat, c, v0, fuel);
                }
                let n = &ns[j];
                let ghost before = results@;
                let ghost vb = visited_set(visited@);
                let terminal = find_in(&syms.entries, &n.location).is_none()
                    && find_in(&defs.entries, &n.location).is_none()
                    && find_in(&files.entries, &n.location).is_none();
                proof {
                    lemma_lookup_key(syms.entries@, import_location_view(n.location));
                    lemma_lookup_key(defs.entries@, import_location_view(n.location));
                    lemma_lookup_key(files.entries@, import_location_view(n.location));
                    lemma_key_lookup(syms.entries@, import_location_view(n.location));
                    lemma_key_lookup(defs.entries@, import_location_view(n.location));
                    lemma_key_lookup(files.entries@, import_location_view(n.location));
                }
                if terminal {
                    results.push(ResolvedTarget::ImportedSymbol(duplicate_symbol(n)));
                    assert(results@.subrange(start_len as int, results@.len() as int)
                        =~= before.subrange(start_len as int, before.len() as int).push(ResolvedTarget::ImportedSymbol(*n)));
                    assert(results@.subrange(0, start_len as int) =~= before.subrange(0, start_len as int));
                } else {
                    proof {
                        lemma_diff_shrinks(ks, v1, vb);
                    }
                    resolve_into(syms, defs, files, &n.location, visited, results, Ghost((fuel - 1) as nat));
                    assert(results@.subrange(start_len as int, results@.len() as int)
                        =~= before.subrange(start_len as int, before.len() as int)
                            + results@.subrange(before.len() as int, results@.len() as int));
                    assert(results@.subrange(0, start_len as int) =~= results@.subrange(0, before.len() as int).subrange(0, start_len as int));
                }
                j = j + 1;
            }
            assert(nsv.take(nsv.len() as int) =~= nsv);
        },
        None => {
            assert(results@.subrange(start_len as int, results@.len() as int) =~= Seq::<ResolvedTarget>::empty());
        },
    }
    proof {
        lemma_lookup_key(files.entries@, c);
        lemma_key_lookup(files.entries@, c);
    }
    match find_in(&defs.entries, cur) {
        Some(i) => {
            let ds = &defs.entries[i].1;
            let ghost dsv = ds@;
            let ghost mid = results@;
            let mut j: usize = 0;
            while j < ds.len()
                invariant
                    dsv == ds@,
                    j <= dsv.len(),
                    mid.len() <= results@.len(),
                    results@.subrange(0, mid.len() as int) == mid,
                    results@.subrange(mid.len() as int, results@.len() as int)
                        == dsv.take(j as int).map_values(|d: DefinitionNode| ResolvedTarget::Definition(d)),
                decreases dsv.len() - j,
            {
                let ghost before = results@;
                results.push(ResolvedTarget::Definition(duplicate_definition(&ds[j])));
                assert(dsv.take(j + 1).map_values(|d: DefinitionNode| ResolvedTarget::Definition(d))
                    =~= dsv.take(j as int).map_values(|d: DefinitionNode| ResolvedTarget::Definition(d)).push(ResolvedTarget::Definition(dsv[j as int])));
                assert(results@.subrange(mid.len() as int, results@.len() as int)
                    =~= before.subrange(mid.len() as int, before.len() as int).push(ResolvedTarget::Definition(dsv[j as int])));
                assert(results@.subrange(0, mid.len() as int) =~= before.subrange(0, mid.len() as int));
                j = j + 1;
            }
            assert(dsv.take(dsv.len() as int) =~= dsv);
            assert(results@.subrange(start_len as int, results@.len() as int)
                =~= mid.subrange(start_len as int, mid.len() as int) + results@.subrange(mid.len() as int, results@.len() as int));
            assert(results@.subrange(0, start_len as int) =~= mid.subrange(0, start_len as int));
        },
        None => {},
    }
}

/// A location found in no map entry has no values under it.
proof fn lemma_key_lookup<T>(es: Seq<(ImportedSymbolLocation, Vec<T>)>, k: LocationView)
    ensures
        keys_of(es).contains(k) ==> lookup(es, k) is Some,
    decreases es.len(),
{
    if es.len() > 0 && keys_of(es).contains(k) {
        if import_location_view(es[0].0) != k {
            let s = es.map_values(|e: (ImportedSymbolLocation, Vec<T>)| import_location_view(e.0));
            let j = choose|j: int| 0 <= j < s.len() && s[j] == k;
            assert(j > 0);
            assert(es.skip(1).map_values(|e: (ImportedSymbolLocation, Vec<T>)| import_location_view(e.0))[j - 1] == k);
            lemma_key_lookup(es.skip(1), k);
        }
    }
}

/// When following the symbols of `ns` succeeds, following a prefix of them
/// does.
proof fn lemma_list_prefix_some(
    syms: Seq<(ImportedSymbolLocation, Vec<ImportedSymbolNode>)>,
    defs: Seq<(ImportedSymbolLocation, Vec<DefinitionNode>)>,
    files: Seq<(ImportedSymbolLocation, Vec<String>)>,
    ns: Seq<ImportedSymbolNode>,
    j: int,
    v1: Set<LocationView>,
    f1: nat,
    c: LocationView,
    v0: Set<LocationView>,
    fuel: nat,
)
    requires
        0 <= j <= ns.len(),
        fuel >= 1,
        f1 == fuel - 1,
        !v0.contains(c),
        v1 == v0.insert(c),
        lookup(syms, c) == Some(ns),
        resolve_at(syms, defs, files, c, v0, fuel) is Some,
    ensures
        resolve_list(syms, defs, files, ns.take(j), v1, f1) is Some,
    decreases ns.len() - j,
{
    if j == ns.len() {
        assert(ns.take(j) =~= ns);
    } else {
        lemma_list_prefix_some(syms, defs, files, ns, j + 1, v1, f1, c, v0, fuel);
        assert(ns.take(j + 1).drop_last() =~= ns.take(j));
    }
}

/// The targets of following the imported symbol at `start` through the
/// symbols it re-imports, as `resolved_targets` states: targets that end
/// a chain and the definitions filed under each location followed, each
/// location followed once.
pub fn resolve_import_chain(
    start: &ImportedSymbolLocation,
    to_symbols: &ImportChainMap,
    to_definitions: &ImportDefinitionMap,
    to_files: &ImportFileMap,
) -> (r: Vec<ResolvedTarget>)
    requires
        resolved_targets(import_location_view(*start), to_symbols.entries@, to_definitions.entries@, to_files.entries@) is Some,
    ensures
        resolved_targets(import_location_view(*start), to_symbols.entries@, to_definitions.entries@, to_files.entries@)
            == Some(r@),
{
    let mut visited: Vec<ImportedSymbolLocation> = Vec::new();
    let mut results: Vec<ResolvedTarget> = Vec::new();
    let ghost ks = all_keys(to_symbols.entries@, to_definitions.entries@, to_files.entries@);
    proof {
        lemma_keys_finite(to_symbols.entries@);
        lemma_keys_finite(to_definitions.entries@);
        lemma_keys_finite(to_files.entries@);
        assert(visited_set(visited@) =~= Set::<LocationView>::empty());
        assert(ks.difference(Set::<LocationView>::empty()) =~= ks);
    }
    resolve_into(to_symbols, to_definitions, to_files, start, &mut visited, &mut results, Ghost((ks.len() + 1) as nat));
    assert(results@.subrange(0, results@.len() as int) =~= results@);
    results
}

/// What a map files, by location.
pub open spec fn entries_map<T>(es: Seq<(ImportedSymbolLocation, Vec<T>)>) -> Map<LocationView, Seq<T>> {
    Map::new(|k: LocationView| lookup(es, k) is Some, |k: LocationView| lookup(es, k)->0)
}

proof fn lemma_lookup_push<T>(es: Seq<(ImportedSymbolLocation, Vec<T>)>, e: (ImportedSymbolLocation, Vec<T>), k: LocationView)
    ensures
        lookup(es.push(e), k) == (match lookup(es, k) {
            Some(v) => Some(v),
            None => if import_location_view(e.0) == k { Some(e.1@) } else { None },
        }),
    decreases es.len(),
{
    if es.len() > 0 {
        assert(es.push(e)[0] == es[0]);
        assert(es.push(e).skip(1) =~= es.skip(1).push(e));
        lemma_lookup_push(es.skip(1), e, k);
    } else {
        assert(es.push(e)[0] == e);
        assert(es.push(e).skip(1) =~= Seq::<(ImportedSymbolLocation, Vec<T>)>::empty());
        assert(lookup(Seq::<(ImportedSymbolLocation, Vec<T>)>::empty(), k) is None);
    }
}

proof fn lemma_lookup_update<T>(es: Seq<(ImportedSymbolLocation, Vec<T>)>, i: int, e: (ImportedSymbolLocation, Vec<T>), k: LocationView)
    requires
        0 <= i < es.len(),
        import_location_view(es[i].0) == import_location_view(e.0),
        forall|j: int| 0 <= j < i ==> import_location_view(#[trigger] es[j].0) != import_location_view(e.0),
    ensures
        lookup(es.update(i, e), k) == (if k == import_location_view(e.0) { Some(e.1@) } else { lookup(es, k) }),
    decreases es.len(),
{
    let u = es.update(i, e);
    if i == 0 {
        assert(u[0] == e);
        assert(u.skip(1) =~= es.skip(1));
    } else {
        assert(u[0] == es[0]);
        assert(u.skip(1) =~= es.skip(1).update(i - 1, e));
        assert forall|j: int| 0 <= j < i - 1 implies import_location_view(#[trigger] es.skip(1)[j].0) != import_location_view(e.0) by {
            assert(es.skip(1)[j] == es[j + 1]);
        }
        lemma_lookup_update(es.skip(1), i - 1, e, k);
    }
}

fn find_first_index<T>(es: &Vec<(ImportedSymbolLocation, Vec<T>)>, k: &ImportedSymbolLocation) -> (r: Option<usize>)
    ensures
        match r {
            Some(i) => i < es@.len() && import_location_view(es@[i as int].0) == import_location_view(*k)
                && forall|m: int| 0 <= m < i ==> import_location_view(#[trigger] es@[m].0) != import_location_view(*k),
            None => lookup(es@, import_location_view(*k)) is None,
        },
{
    let mut i: usize = 0;
    assert(es@.skip(0) =~= es@);
    while i < es.len()
        invariant
            i <= es@.len(),
            lookup(es@, import_location_view(*k)) == lookup(es@.skip(i as int), import_location_view(*k)),
            forall|m: int| 0 <= m < i ==> import_location_view(#[trigger] es@[m].0) != import_location_view(*k),
        decreases es@.len() - i,
    {
        assert(es@.skip(i as int)[0] == es@[i as int]);
        assert(es@.skip(i as int).skip(1) =~= es@.skip(i + 1));
        if same_location(&es[i].0, k) {
            return Some(i);
        }
        i = i + 1;
    }
    None
}

/// Files `v` under `k`, replacing what was filed there.
fn insert_entry<T>(es: &mut Vec<(ImportedSymbolLocation, Vec<T>)>, k: ImportedSymbolLocation, v: Vec<T>)
    ensures
        entries_map(final(es)@) == entries_map(old(es)@).insert(import_location_view(k), v@),
{
    let ghost before = es@;
    let ghost kv = import_location_view(k);
    let ghost e = (k, v);
    match find_first_index(es, &k) {
        Some(i) => {
            es.set(i, (k, v));
            proof {
                assert forall|x: LocationView| #![auto] lookup(es@, x) == (if x == kv { Some(e.1@) } else { lookup(before, x) }) by {
                    lemma_lookup_update(before, i as int, e, x);
                }
            }
        },
        None => {
            es.push((k, v));
            proof {
                assert forall|x: LocationView| #![auto] lookup(es@, x) == (if x == kv { Some(e.1@) } else { lookup(before, x) }) by {
                    lemma_lookup_push(before, e, x);
                }
            }
        },
    }
    assert(entries_map(es@) =~= entries_map(before).insert(kv, v@));
}

impl ImportChainMap {
    pub fn new() -> (m: Self)
        ensures
            m.entries@.len() == 0,
    {
        ImportChainMap { entries: Vec::new() }
    }

    /// Files the symbols `v` under `k`, replacing what was there.
    pub fn insert(&mut self, k: ImportedSymbolLocation, v: Vec<ImportedSymbolNode>)
        ensures
            entries_map(final(self).entries@) == entries_map(old(self).entries@).insert(import_location_view(k), v@),
    {
        insert_entry(&mut self.entries, k, v);
    }
}

impl ImportDefinitionMap {
    pub fn new() -> (m: Self)
        ensures
            m.entries@.len() == 0,
    {
        ImportDefinitionMap { entries: Vec::new() }
    }

    /// Files the definitions `v` under `k`, replacing what was there.
    pub fn insert(&mut self, k: ImportedSymbolLocation, v: Vec<DefinitionNode>)
        ensures
            entries_map(final(self).entries@) == entries_map(old(self).entries@).insert(import_location_view(k), v@),
    {
        insert_entry(&mut self.entries, k, v);
    }
}

impl ImportFileMap {
    pub fn new() -> (m: Self)
        ensures
            m.entries@.len() == 0,
    {
        ImportFileMap { entries: Vec::new() }
    }

    /// Files the files `v` under `k`, replacing what was there.
    pub fn insert(&mut self, k: ImportedSymbolLocation, v: Vec<String>)
        ensures
            entries_map(final(self).entries@) == entries_map(old(self).entries@).insert(import_location_view(k), v@),
    {
        insert_entry(&mut self.entries, k, v);
    }
}

} // verus!
