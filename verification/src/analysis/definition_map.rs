//! Definitions keyed by fully qualified name and file, and the parent-child
//! relationships that the language rules draw between them.

use vstd::prelude::*;
use crate::analysis::types::{
    DefinitionLocation, DefinitionNode, DefinitionRelationship, DefinitionType, FqnPart, FqnType,
    part_names,
};
use crate::analysis::languages::definitions::{opt_location_view, LocationView};
use crate::analysis::languages::{rule_parent_fqn, rule_relationship, DefinitionRules};
use crate::graph::RelationshipType;
use crate::seq_util::{filter_map, lemma_filter_map_step};
use crate::text::{dots_as_hashes, join_texts, replace_dots, str_eq};

verus! {

/// A definition together with the key it is filed under.
#[derive(Debug)]
pub struct DefinitionEntry {
    pub fqn: String,
    pub file_path: String,
    pub node: DefinitionNode,
    pub fqn_type: FqnType,
}

/// The key of an entry: fully qualified name and file path.
pub open spec fn entry_key(e: DefinitionEntry) -> (Seq<char>, Seq<char>) {
    (e.fqn@, e.file_path@)
}

/// No key is filed twice.
pub open spec fn keys_unique(es: Seq<DefinitionEntry>) -> bool {
    forall|i: int, j: int| 0 <= i < j < es.len() ==> entry_key(#[trigger] es[i]) != entry_key(#[trigger] es[j])
}

/// The position of `k` in `keys`, if it occurs there.
pub open spec fn key_index<K>(keys: Seq<K>, k: K) -> Option<int> {
    if exists|i: int| 0 <= i < keys.len() && keys[i] == k {
        Some(choose|i: int| 0 <= i < keys.len() && keys[i] == k)
    } else {
        None
    }
}

/// A key found at exactly one position is looked up there.
pub proof fn lemma_key_index_single<K>(keys: Seq<K>, k: K, i: int)
    requires
        0 <= i < keys.len(),
        keys[i] == k,
        forall|j: int| 0 <= j < keys.len() && j != i ==> keys[j] != k,
    ensures
        key_index(keys, k) == Some(i),
{
}

/// The keys of the entries, in order.
pub open spec fn entry_keys(es: Seq<DefinitionEntry>) -> Seq<(Seq<char>, Seq<char>)> {
    es.map_values(|e: DefinitionEntry| entry_key(e))
}

/// The position of the entry filed under `(fqn, file_path)`, if any.
pub open spec fn lookup_entry(es: Seq<DefinitionEntry>, fqn: Seq<char>, file_path: Seq<char>) -> Option<int> {
    key_index(entry_keys(es), (fqn, file_path))
}

/// Filing `e`: replacing the entry under its key, or adding it last.
pub open spec fn filed(es: Seq<DefinitionEntry>, e: DefinitionEntry) -> Seq<DefinitionEntry> {
    match lookup_entry(es, e.fqn@, e.file_path@) {
        Some(i) => es.update(i, e),
        None => es.push(e),
    }
}

/// What is filed is found again under its key, keys stay unique, and
/// every entry under another key stays where it was.
pub proof fn lemma_filed_then_found(es: Seq<DefinitionEntry>, e: DefinitionEntry)
    requires
        keys_unique(es),
    ensures
        keys_unique(filed(es, e)),
        lookup_entry(filed(es, e), e.fqn@, e.file_path@) matches Some(i) && filed(es, e)[i] == e,
        forall|i: int| 0 <= i < es.len() && entry_key(#[trigger] es[i]) != entry_key(e) ==> filed(es, e)[i] == es[i],
{
    let f = filed(es, e);
    let ks = entry_keys(es);
    let fk = entry_keys(f);
    match lookup_entry(es, e.fqn@, e.file_path@) {
        Some(i) => {
            assert(ks[i] == entry_key(e));
            assert(fk =~= ks);
            assert forall|a: int, b: int| 0 <= a < b < f.len() implies entry_key(#[trigger] f[a]) != entry_key(#[trigger] f[b]) by {
                assert(entry_key(f[a]) == ks[a]);
                assert(entry_key(f[b]) == ks[b]);
                assert(entry_key(es[a]) == ks[a]);
                assert(entry_key(es[b]) == ks[b]);
            }
        },
        None => {
            let n = es.len() as int;
            assert forall|j: int| 0 <= j < n implies ks[j] != entry_key(e) by {}
            assert forall|a: int, b: int| 0 <= a < b < f.len() implies entry_key(#[trigger] f[a]) != entry_key(#[trigger] f[b]) by {
                assert(f[a] == es[a]);
                assert(ks[a] == entry_key(es[a]));
                if b < n {
                    assert(f[b] == es[b]);
                }
            }
            assert(fk[n] == entry_key(e));
            let c = choose|c: int| 0 <= c < fk.len() && fk[c] == entry_key(e);
            if c != n {
                assert(fk[c] == entry_key(f[c]));
                assert(entry_key(f[c]) != entry_key(f[n]));
            }
        },
    }
}

/// Definitions keyed by fully qualified name and file path, in the order
/// in which their keys were first filed.
pub struct DefinitionMap {
    entries: Vec<DefinitionEntry>,
}

impl View for DefinitionMap {
    type V = Seq<DefinitionEntry>;

    closed spec fn view(&self) -> Seq<DefinitionEntry> {
        self.entries@
    }
}

impl DefinitionMap {
    pub fn new() -> (m: Self)
        ensures
            m@ == Seq::<DefinitionEntry>::empty(),
    {
        DefinitionMap { entries: Vec::new() }
    }

    pub fn len(&self) -> (n: usize)
        ensures
            n == self@.len(),
    {
        self.entries.len()
    }

    pub fn entry_at(&self, i: usize) -> (e: &DefinitionEntry)
        requires
            i < self@.len(),
        ensures
            *e == self@[i as int],
    {
        &self.entries[i]
    }

    /// The position of the entry filed under `(fqn, file_path)`.
    pub fn find(&self, fqn: &str, file_path: &str) -> (r: Option<usize>)
        requires
            keys_unique(self@),
        ensures
            match r {
                Some(i) => lookup_entry(self@, fqn@, file_path@) == Some(i as int),
                None => lookup_entry(self@, fqn@, file_path@) is None,
            },
    {
        let mut i: usize = 0;
        while i < self.entries.len()
            invariant
                i <= self@.len(),
                self@ == self.entries@,
                keys_unique(self@),
                forall|j: int| 0 <= j < i ==> entry_key(#[trigger] self@[j]) != (fqn@, file_path@),
            decreases self@.len() - i,
        {
            if str_eq(self.entries[i].fqn.as_str(), fqn) && str_eq(self.entries[i].file_path.as_str(), file_path) {
                proof {
                    let ks = entry_keys(self@);
                    assert(ks[i as int] == (fqn@, file_path@));
                    let c = choose|c: int| 0 <= c < ks.len() && ks[c] == (fqn@, file_path@);
                    assert(ks[c] == entry_key(self@[c]));
                    if c != i as int {
                        if c < i {
                            assert(entry_key(self@[c]) != (fqn@, file_path@));
                        } else {
                            assert(entry_key(self@[i as int]) != entry_key(self@[c]));
                        }
                    }
                }
                return Some(i);
            }
            i = i + 1;
        }
        proof {
            let ks = entry_keys(self@);
            assert forall|c: int| 0 <= c < ks.len() implies ks[c] != (fqn@, file_path@) by {
                assert(ks[c] == entry_key(self@[c]));
            }
        }
        None
    }

    /// Files `entry` under its key, replacing an entry with the same key.
    pub fn insert(&mut self, entry: DefinitionEntry)
        requires
            keys_unique(old(self)@),
        ensures
            keys_unique(final(self)@),
            final(self)@ == filed(old(self)@, entry),
    {
        let ghost e = entry;
        match self.find(entry.fqn.as_str(), entry.file_path.as_str()) {
            Some(i) => {
                self.entries.set(i, entry);
                proof {
                    assert forall|a: int, b: int| 0 <= a < b < self@.len() implies entry_key(#[trigger] self@[a])
                        != entry_key(#[trigger] self@[b]) by {
                        assert(entry_key(self@[a]) == entry_key(old(self)@[a]));
                        assert(entry_key(self@[b]) == entry_key(old(self)@[b]));
                    }
                }
            },
            None => {
                self.entries.push(entry);
                proof {
                    assert forall|a: int, b: int| 0 <= a < b < self@.len() implies entry_key(#[trigger] self@[a])
                        != entry_key(#[trigger] self@[b]) by {
                        if b == self@.len() - 1 {
                            assert(entry_key(self@[a]) == entry_key(old(self)@[a]));
                            assert(entry_keys(old(self)@)[a] == entry_key(old(self)@[a]));
                        } else {
                            assert(entry_key(self@[a]) == entry_key(old(self)@[a]));
                            assert(entry_key(self@[b]) == entry_key(old(self)@[b]));
                        }
                    }
                }
            },
        }
    }
}

/// The parts of a relationship, by view.
pub struct DefinitionRelationshipView {
    pub from_file_path: Seq<char>,
    pub to_file_path: Seq<char>,
    pub from_definition_fqn: Seq<char>,
    pub to_definition_fqn: Seq<char>,
    pub from_location: DefinitionLocation,
    pub to_location: DefinitionLocation,
    pub relationship_type: RelationshipType,
    pub source_location: Option<LocationView>,
}

pub open spec fn relationship_view(r: DefinitionRelationship) -> DefinitionRelationshipView {
    DefinitionRelationshipView {
        from_file_path: r.from_file_path@,
        to_file_path: r.to_file_path@,
        from_definition_fqn: r.from_definition_fqn@,
        to_definition_fqn: r.to_definition_fqn@,
        from_location: r.from_location,
        to_location: r.to_location,
        relationship_type: r.relationship_type,
        source_location: opt_location_view(r.source_location),
    }
}

/// The relationship from the parent of `child` to `child`, when the rules
/// name a parent, a definition is filed under that name in the child's file,
/// and the rules relate the two kinds of definition.
pub open spec fn child_relationship(
    rules: DefinitionRules,
    es: Seq<DefinitionEntry>,
    child: DefinitionEntry,
) -> Option<DefinitionRelationshipView> {
    match rule_parent_fqn(rules, child.fqn_type) {
        None => None,
        Some(p) => match lookup_entry(es, p, child.file_path@) {
            None => None,
            Some(i) => {
                let parent = es[i];
                match rule_relationship(rules, parent.node.definition_type, child.node.definition_type) {
                    None => None,
                    Some(t) => Some(
                        DefinitionRelationshipView {
                            from_file_path: parent.node.location.file_path@,
                            to_file_path: child.node.location.file_path@,
                            from_definition_fqn: p,
                            to_definition_fqn: child.fqn@,
                            from_location: parent.node.location,
                            to_location: child.node.location,
                            relationship_type: t,
                            source_location: None,
                        },
                    ),
                }
            },
        },
    }
}

/// The relationships that the rules draw over `es`, in the order of `es`.
pub open spec fn child_relationships(rules: DefinitionRules, es: Seq<DefinitionEntry>) -> Seq<DefinitionRelationshipView> {
    filter_map(es, |e: DefinitionEntry| child_relationship(rules, es, e))
}

/// Appends to `out` the relationship from each definition's parent to the
/// definition, following `rules`.
pub fn add_parent_relationships(
    rules: DefinitionRules,
    definition_map: &DefinitionMap,
    definition_relationships: &mut Vec<DefinitionRelationship>,
)
    requires
        keys_unique(definition_map@),
    ensures
        final(definition_relationships)@.map_values(|r: DefinitionRelationship| relationship_view(r))
            == old(definition_relationships)@.map_values(|r: DefinitionRelationship| relationship_view(r))
            + child_relationships(rules, definition_map@),
{
    let ghost es = definition_map@;
    let ghost start = definition_relationships@.map_values(|r: DefinitionRelationship| relationship_view(r));
    let mut i: usize = 0;
    while i < definition_map.len()
        invariant
            es == definition_map@,
            keys_unique(es),
            i <= es.len(),
            definition_relationships@.map_values(|r: DefinitionRelationship| relationship_view(r))
                == start + filter_map(es.take(i as int), |e: DefinitionEntry| child_relationship(rules, es, e)),
        decreases es.len() - i,
    {
        proof {
            lemma_filter_map_step(es, |e: DefinitionEntry| child_relationship(rules, es, e), i as int);
        }
        let child = definition_map.entry_at(i);
        i = i + 1;
        let parent_fqn = match crate::analysis::languages::parent_fqn_string(rules, &child.fqn_type) {
            Some(p) => p,
            None => {
                continue;
            },
        };
        let parent_index = match definition_map.find(parent_fqn.as_str(), child.file_path.as_str()) {
            Some(j) => j,
            None => {
                continue;
            },
        };
        let parent = definition_map.entry_at(parent_index);
        let relationship_type = match crate::analysis::languages::relationship_type_for(
            rules,
            &parent.node.definition_type,
            &child.node.definition_type,
        ) {
            Some(t) => t,
            None => {
                continue;
            },
        };
        let rel = DefinitionRelationship {
            from_file_path: parent.node.location.file_path.clone(),
            to_file_path: child.node.location.file_path.clone(),
            from_definition_fqn: parent_fqn,
            to_definition_fqn: child.fqn.clone(),
            from_location: parent.node.location.duplicate(),
            to_location: child.node.location.duplicate(),
            relationship_type,
            source_location: None,
        };
        let ghost before = definition_relationships@;
        definition_relationships.push(rel);
        proof {
            assert(definition_relationships@.map_values(|r: DefinitionRelationship| relationship_view(r))
                =~= before.map_values(|r: DefinitionRelationship| relationship_view(r)).push(relationship_view(rel)));
        }
    }
    assert(es.take(i as int) =~= es);
}

/// The names of the first `n` parts of `parts`, joined by `sep`; with
/// `hashes`, each name has its dots written as `#`.
pub open spec fn joined_prefix(parts: Seq<FqnPart>, n: int, sep: Seq<char>, hashes: bool) -> Seq<char> {
    let names = part_names(parts.take(n));
    join_texts(if hashes { names.map_values(|t: Seq<char>| dots_as_hashes(t)) } else { names }, sep)
}

/// Joins the names of the first `n` parts of `parts` with `sep`.
pub fn join_prefix(parts: &Vec<FqnPart>, n: usize, sep: &str, hashes: bool) -> (r: String)
    requires
        n <= parts@.len(),
    ensures
        r@ == joined_prefix(parts@, n as int, sep@, hashes),
{
    let mut out = String::new();
    let mut i: usize = 0;
    while i < n
        invariant
            i <= n <= parts@.len(),
            out@ == joined_prefix(parts@, i as int, sep@, hashes),
        decreases n - i,
    {
        let name = if hashes { replace_dots(parts[i].node_name.as_str()) } else { parts[i].node_name.clone() };
        if i > 0 {
            out.append(sep);
        }
        out.append(name.as_str());
        proof {
            let names1 = part_names(parts@.take(i + 1));
            let names0 = part_names(parts@.take(i as int));
            assert(names1.drop_last() =~= names0);
            let m1 = if hashes { names1.map_values(|t: Seq<char>| dots_as_hashes(t)) } else { names1 };
            let m0 = if hashes { names0.map_values(|t: Seq<char>| dots_as_hashes(t)) } else { names0 };
            assert(m1.drop_last() =~= m0);
            assert(m1.last() == name@);
            if i == 0 {
                assert(m1.len() == 1);
                assert(out@ =~= m1[0]);
            } else {
                assert(out@ =~= join_texts(m0, sep@) + sep@ + m1.last());
            }
        }
        i = i + 1;
    }
    out
}

} // verus!
