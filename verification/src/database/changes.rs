//! The decisions of reindexing changed files: which stored definitions are
//! gone, and where new node identifiers continue from.

use vstd::prelude::*;
use crate::analysis::types::DefinitionNode;
use crate::id_table::assigned;
use crate::mutation::utils::{NodeIdGenerator, SpanKey};
use crate::seq_util::{filter_map, lemma_filter_map_step};
use crate::text::str_eq;

verus! {

/// The nodes a change modifies and adds.
#[derive(Debug, Clone)]
pub struct KuzuNodeChanges<T> {
    pub modified_nodes: Vec<T>,
    pub added_nodes: Vec<T>,
}

/// A definition as the database holds it: identifier, name, file.
#[derive(Debug, Clone)]
pub struct StoredDefinition {
    pub id: u32,
    pub fqn: String,
    pub primary_file_path: String,
}

/// Whether some current definition has the name `fqn` in the file `path`.
pub open spec fn still_defined(current: Seq<DefinitionNode>, fqn: Seq<char>, path: Seq<char>) -> bool {
    exists|j: int| 0 <= j < current.len() && (#[trigger] current[j]).fqn@ == fqn && current[j].location.file_path@ == path
}

/// The identifier of a stored definition that no current definition matches.
pub open spec fn gone_id(current: Seq<DefinitionNode>, s: StoredDefinition) -> Option<u32> {
    if still_defined(current, s.fqn@, s.primary_file_path@) {
        None
    } else {
        Some(s.id)
    }
}

fn is_still_defined(current: &Vec<DefinitionNode>, fqn: &str, path: &str) -> (b: bool)
    ensures
        b == still_defined(current@, fqn@, path@),
{
    let mut j: usize = 0;
    while j < current.len()
        invariant
            j <= current@.len(),
            forall|k: int| 0 <= k < j ==> !((#[trigger] current@[k]).fqn@ == fqn@ && current@[k].location.file_path@ == path@),
        decreases current@.len() - j,
    {
        if str_eq(current[j].fqn.as_str(), fqn) && str_eq(current[j].location.file_path.as_str(), path) {
            return true;
        }
        j = j + 1;
    }
    false
}

/// The identifiers of the stored definitions of changed files that the
/// new analysis no longer has (same name in the same file), in order.
pub fn deleted_definition_ids(stored: &Vec<StoredDefinition>, current: &Vec<DefinitionNode>) -> (ids: Vec<u32>)
    ensures
        ids@ == filter_map(stored@, |s: StoredDefinition| gone_id(current@, s)),
{
    let mut ids: Vec<u32> = Vec::new();
    let mut i: usize = 0;
    while i < stored.len()
        invariant
            i <= stored@.len(),
            ids@ == filter_map(stored@.take(i as int), |s: StoredDefinition| gone_id(current@, s)),
        decreases stored@.len() - i,
    {
        proof {
            lemma_filter_map_step(stored@, |s: StoredDefinition| gone_id(current@, s), i as int);
        }
        let s = &stored[i];
        if !is_still_defined(current, s.fqn.as_str(), s.primary_file_path.as_str()) {
            ids.push(s.id);
        }
        i = i + 1;
    }
    assert(stored@.take(stored@.len() as int) =~= stored@);
    ids
}

/// A generator of identifiers that continues after the largest stored
/// ones, with no path or span assigned yet.
pub fn generator_after(max_definition_id: u32, max_file_id: u32, max_dir_id: u32) -> (g: NodeIdGenerator)
    requires
        max_definition_id < u32::MAX,
        max_file_id < u32::MAX,
        max_dir_id < u32::MAX,
    ensures
        g.next_definition_id == max_definition_id + 1,
        g.next_file_id == max_file_id + 1,
        g.next_directory_id == max_dir_id + 1,
        g.next_imported_symbol_id == 1,
        g@.directories == Map::<Seq<char>, u32>::empty(),
        g@.files == Map::<Seq<char>, u32>::empty(),
        g@.definitions == Map::<SpanKey, u32>::empty(),
        g@.imported_symbols == Map::<SpanKey, u32>::empty(),
        g.ids_well_formed(),
{
    let mut g = NodeIdGenerator::new();
    g.next_definition_id = max_definition_id + 1;
    g.next_file_id = max_file_id + 1;
    g.next_directory_id = max_dir_id + 1;
    g.clear();
    g
}

/// Every identifier of `m` is above `floor`.
pub open spec fn ids_above<K>(m: Map<K, u32>, floor: u32) -> bool {
    forall|k: K| #[trigger] m.contains_key(k) ==> m[k] > floor
}

/// A table whose identifiers and counter are above the largest stored
/// identifier stays so when a key is asked for, and the identifier it gets
/// is above it: identifiers handed out after the stored maximum never meet
/// one that the database keeps.
pub proof fn lemma_assigned_stays_above<K>(m: Map<K, u32>, next: u32, k: K, floor: u32)
    requires
        ids_above(m, floor),
        next > floor,
        m.contains_key(k) || next < u32::MAX,
    ensures
        ({
            let (id, m2, next2) = assigned(m, next, k);
            &&& id > floor
            &&& ids_above(m2, floor)
            &&& next2 > floor
        }),
{
    let (id, m2, next2) = assigned(m, next, k);
    if !m.contains_key(k) {
        assert forall|k1: K| #[trigger] m2.contains_key(k1) implies m2[k1] > floor by {
            if k1 != k {
                assert(m.contains_key(k1));
            }
        }
    }
}

/// The generator made after the stored maxima starts above them: its tables
/// are empty and each counter is one past its maximum.
pub proof fn lemma_generator_after_starts_above(g: NodeIdGenerator, max_definition_id: u32, max_file_id: u32, max_dir_id: u32)
    requires
        g.next_definition_id == max_definition_id + 1,
        g.next_file_id == max_file_id + 1,
        g.next_directory_id == max_dir_id + 1,
        g@.directories == Map::<Seq<char>, u32>::empty(),
        g@.files == Map::<Seq<char>, u32>::empty(),
        g@.definitions == Map::<SpanKey, u32>::empty(),
    ensures
        ids_above(g@.definitions, max_definition_id) && g.next_definition_id > max_definition_id,
        ids_above(g@.files, max_file_id) && g.next_file_id > max_file_id,
        ids_above(g@.directories, max_dir_id) && g.next_directory_id > max_dir_id,
{
}

} // verus!
