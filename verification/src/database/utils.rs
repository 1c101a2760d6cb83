//! Integer identifiers for graph nodes keyed by path, and for definitions
//! keyed by fully qualified name and file.

use vstd::prelude::*;
use crate::id_table::{assigned, 
    ids_fresh_below, lemma_fresh_insert, lemma_pair_key_injective, make_pair_key, pair_key, IdTable,
};

verus! {

/// A definition key: fully qualified name and file path.
pub type NameKey = (Seq<char>, Seq<char>);

/// The identifiers that a generator has handed out, per node kind.
pub struct NodeIdsView {
    pub directories: Map<Seq<char>, u32>,
    pub files: Map<Seq<char>, u32>,
    pub definitions: Map<NameKey, u32>,
}

/// The map over name pairs that a table of pair keys stands for.
pub open spec fn pair_map(t: Map<Seq<char>, u32>) -> Map<NameKey, u32> {
    Map::new(
        |k: NameKey| t.contains_key(pair_key(k.0, k.1)),
        |k: NameKey| t[pair_key(k.0, k.1)],
    )
}

proof fn lemma_pair_map_insert(t: Map<Seq<char>, u32>, k: NameKey, v: u32)
    ensures
        pair_map(t.insert(pair_key(k.0, k.1), v)) == pair_map(t).insert(k, v),
{
    let lhs = pair_map(t.insert(pair_key(k.0, k.1), v));
    let rhs = pair_map(t).insert(k, v);
    assert forall|j: NameKey| lhs.contains_key(j) == rhs.contains_key(j) by {
        if pair_key(j.0, j.1) == pair_key(k.0, k.1) {
            lemma_pair_key_injective(j.0, j.1, k.0, k.1);
        }
    }
    assert forall|j: NameKey| #[trigger] lhs.contains_key(j) implies lhs[j] == rhs[j] by {
        if pair_key(j.0, j.1) == pair_key(k.0, k.1) {
            lemma_pair_key_injective(j.0, j.1, k.0, k.1);
        }
    }
    assert(lhs =~= rhs);
}

/// Node ID generator for assigning integer IDs to nodes
pub struct NodeIdGenerator {
    /// Directory path to ID mapping
    pub directory_ids: IdTable,
    /// File path to ID mapping
    pub file_ids: IdTable,
    /// Definition FQN and file path to ID mapping
    pub definition_ids: IdTable,
    /// Next available IDs for each type
    pub next_directory_id: u32,
    pub next_file_id: u32,
    pub next_definition_id: u32,
}

impl View for NodeIdGenerator {
    type V = NodeIdsView;

    closed spec fn view(&self) -> NodeIdsView {
        NodeIdsView {
            directories: self.directory_ids@,
            files: self.file_ids@,
            definitions: pair_map(self.definition_ids@),
        }
    }
}

impl NodeIdGenerator {
    /// Every identifier handed out is below the next one of its kind and at
    /// least one, and no two nodes of a kind share an identifier.
    pub open spec fn ids_well_formed(&self) -> bool {
        &&& ids_fresh_below(self@.directories, self.next_directory_id)
        &&& ids_fresh_below(self@.files, self.next_file_id)
        &&& ids_fresh_below(self@.definitions, self.next_definition_id)
    }

    pub fn new() -> (g: Self)
        ensures
            g@.directories == Map::<Seq<char>, u32>::empty(),
            g@.files == Map::<Seq<char>, u32>::empty(),
            g@.definitions == Map::<NameKey, u32>::empty(),
            g.next_directory_id == 1,
            g.next_file_id == 1,
            g.next_definition_id == 1,
            g.ids_well_formed(),
    {
        let g = NodeIdGenerator {
            directory_ids: IdTable::new(),
            file_ids: IdTable::new(),
            definition_ids: IdTable::new(),
            next_directory_id: 1,
            next_file_id: 1,
            next_definition_id: 1,
        };
        assert(g@.definitions =~= Map::<NameKey, u32>::empty());
        g
    }

    /// Clear all ID mappings while preserving the next ID counters
    pub fn clear(&mut self)
        ensures
            final(self)@.directories == Map::<Seq<char>, u32>::empty(),
            final(self)@.files == Map::<Seq<char>, u32>::empty(),
            final(self)@.definitions == Map::<NameKey, u32>::empty(),
            final(self).next_directory_id == old(self).next_directory_id,
            final(self).next_file_id == old(self).next_file_id,
            final(self).next_definition_id == old(self).next_definition_id,
            old(self).ids_well_formed() ==> final(self).ids_well_formed(),
    {
        self.directory_ids.clear();
        self.file_ids.clear();
        self.definition_ids.clear();
        assert(self@.definitions =~= Map::<NameKey, u32>::empty());
    }

    pub fn get_or_assign_directory_id(&mut self, path: &str) -> (id: u32)
        requires
            old(self)@.directories.contains_key(path@) || old(self).next_directory_id < u32::MAX,
        ensures
            old(self)@.directories.contains_key(path@) ==> {
                &&& id == old(self)@.directories[path@]
                &&& final(self)@.directories == old(self)@.directories
                &&& final(self).next_directory_id == old(self).next_directory_id
            },
            !old(self)@.directories.contains_key(path@) ==> {
                &&& id == old(self).next_directory_id
                &&& final(self)@.directories == old(self)@.directories.insert(path@, id)
                &&& final(self).next_directory_id == old(self).next_directory_id + 1
            },
            (id, final(self)@.directories, final(self).next_directory_id) == assigned(old(self)@.directories, old(self).next_directory_id, path@),
            final(self)@.files == old(self)@.files,
            final(self)@.definitions == old(self)@.definitions,
            final(self).next_file_id == old(self).next_file_id,
            final(self).next_definition_id == old(self).next_definition_id,
            old(self).ids_well_formed() ==> final(self).ids_well_formed(),
    {
        let ghost before = self.directory_ids@;
        let ghost next = self.next_directory_id;
        let id = self.directory_ids.get_or_assign(path, &mut self.next_directory_id);
        proof {
            if !before.contains_key(path@) && ids_fresh_below(before, next) {
                lemma_fresh_insert(before, next, path@);
            }
        }
        id
    }

    pub fn get_or_assign_file_id(&mut self, path: &str) -> (id: u32)
        requires
            old(self)@.files.contains_key(path@) || old(self).next_file_id < u32::MAX,
        ensures
            old(self)@.files.contains_key(path@) ==> {
                &&& id == old(self)@.files[path@]
                &&& final(self)@.files == old(self)@.files
                &&& final(self).next_file_id == old(self).next_file_id
            },
            !old(self)@.files.contains_key(path@) ==> {
                &&& id == old(self).next_file_id
                &&& final(self)@.files == old(self)@.files.insert(path@, id)
                &&& final(self).next_file_id == old(self).next_file_id + 1
            },
            (id, final(self)@.files, final(self).next_file_id) == assigned(old(self)@.files, old(self).next_file_id, path@),
            final(self)@.directories == old(self)@.directories,
            final(self)@.definitions == old(self)@.definitions,
            final(self).next_directory_id == old(self).next_directory_id,
            final(self).next_definition_id == old(self).next_definition_id,
            old(self).ids_well_formed() ==> final(self).ids_well_formed(),
    {
        let ghost before = self.file_ids@;
        let ghost next = self.next_file_id;
        let id = self.file_ids.get_or_assign(path, &mut self.next_file_id);
        proof {
            if !before.contains_key(path@) && ids_fresh_below(before, next) {
                lemma_fresh_insert(before, next, path@);
            }
        }
        id
    }

    pub fn get_or_assign_definition_id(&mut self, fqn: &str, file_path: &str) -> (id: u32)
        requires
            old(self)@.definitions.contains_key((fqn@, file_path@))
                || old(self).next_definition_id < u32::MAX,
        ensures
            old(self)@.definitions.contains_key((fqn@, file_path@)) ==> {
                &&& id == old(self)@.definitions[(fqn@, file_path@)]
                &&& final(self)@.definitions == old(self)@.definitions
                &&& final(self).next_definition_id == old(self).next_definition_id
            },
            !old(self)@.definitions.contains_key((fqn@, file_path@)) ==> {
                &&& id == old(self).next_definition_id
                &&& final(self)@.definitions == old(self)@.definitions.insert((fqn@, file_path@), id)
                &&& final(self).next_definition_id == old(self).next_definition_id + 1
            },
            (id, final(self)@.definitions, final(self).next_definition_id) == assigned(old(self)@.definitions, old(self).next_definition_id, (fqn@, file_path@)),
            final(self)@.directories == old(self)@.directories,
            final(self)@.files == old(self)@.files,
            final(self).next_directory_id == old(self).next_directory_id,
            final(self).next_file_id == old(self).next_file_id,
            old(self).ids_well_formed() ==> final(self).ids_well_formed(),
    {
        let ghost before = self.definition_ids@;
        let ghost next = self.next_definition_id;
        let ghost k: NameKey = (fqn@, file_path@);
        let key = make_pair_key(fqn, file_path);
        let id = self.definition_ids.get_or_assign(key.as_str(), &mut self.next_definition_id);
        proof {
            if !before.contains_key(key@) {
                lemma_pair_map_insert(before, k, id);
                if ids_fresh_below(pair_map(before), next) {
                    lemma_fresh_insert(pair_map(before), next, k);
                }
            }
        }
        id
    }

    pub fn get_directory_id(&self, path: &str) -> (r: Option<u32>)
        ensures
            r == (if self@.directories.contains_key(path@) {
                Some(self@.directories[path@])
            } else {
                None::<u32>
            }),
    {
        self.directory_ids.get(path)
    }

    pub fn get_file_id(&self, path: &str) -> (r: Option<u32>)
        ensures
            r == (if self@.files.contains_key(path@) {
                Some(self@.files[path@])
            } else {
                None::<u32>
            }),
    {
        self.file_ids.get(path)
    }

    pub fn get_definition_id(&self, fqn: &str, file_path: &str) -> (r: Option<u32>)
        ensures
            r == (if self@.definitions.contains_key((fqn@, file_path@)) {
                Some(self@.definitions[(fqn@, file_path@)])
            } else {
                None::<u32>
            }),
    {
        let key = make_pair_key(fqn, file_path);
        self.definition_ids.get(key.as_str())
    }
}

} // verus!
