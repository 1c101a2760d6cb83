//! Counters keyed by string, such as the number of files per extension.

use vstd::prelude::*;
use crate::text::str_eq;

verus! {

/// Counts keyed by string, with no key listed twice.
pub struct CountTable {
    entries: Vec<(String, usize)>,
}

/// The key of an entry.
pub open spec fn entry_key(e: (String, usize)) -> Seq<char> {
    e.0@
}

impl View for CountTable {
    type V = Map<Seq<char>, usize>;

    closed spec fn view(&self) -> Map<Seq<char>, usize> {
        Map::new(
            |k: Seq<char>| exists|i: int| 0 <= i < self.entries@.len() && entry_key(#[trigger] self.entries@[i]) == k,
            |k: Seq<char>| self.entries@[choose|i: int| 0 <= i < self.entries@.len() && entry_key(#[trigger] self.entries@[i]) == k].1,
        )
    }
}

/// The count of `k` in `m`, zero when `m` has none.
pub open spec fn count_of(m: Map<Seq<char>, usize>, k: Seq<char>) -> nat {
    if m.contains_key(k) { m[k] as nat } else { 0 }
}

/// Counting `k` once more adds one to its count and leaves every other
/// count as it was.
pub proof fn lemma_count_after_increment(m: Map<Seq<char>, usize>, k: Seq<char>, q: Seq<char>)
    requires
        count_of(m, k) < usize::MAX,
    ensures
        count_of(m.insert(k, (count_of(m, k) + 1) as usize), q) == count_of(m, q) + (if q == k { 1int } else { 0int }),
{
}

impl CountTable {
    /// No key is listed twice.
    pub closed spec fn wf(&self) -> bool {
        forall|i: int, j: int|
            0 <= i < j < self.entries@.len() ==> entry_key(#[trigger] self.entries@[i]) != entry_key(
                #[trigger] self.entries@[j],
            )
    }

    /// The keys in the order they were first counted.
    pub closed spec fn keys(&self) -> Seq<Seq<char>> {
        self.entries@.map_values(|e: (String, usize)| e.0@)
    }

    pub proof fn lemma_keys(&self)
        requires
            self.wf(),
        ensures
            self.keys().to_set() == self@.dom(),
            self.keys().len() == self.len_spec(),
    {
        assert forall|k: Seq<char>| self.keys().to_set().contains(k) <==> self@.dom().contains(k) by {
            if self@.dom().contains(k) {
                let i = choose|i: int| 0 <= i < self.entries@.len() && entry_key(#[trigger] self.entries@[i]) == k;
                assert(self.keys()[i] == k);
            }
            if self.keys().contains(k) {
                let i = choose|i: int| 0 <= i < self.keys().len() && #[trigger] self.keys()[i] == k;
                assert(entry_key(self.entries@[i]) == k);
            }
        }
        assert(self.keys().to_set() =~= self@.dom());
    }

    pub closed spec fn len_spec(&self) -> nat {
        self.entries@.len()
    }

    pub fn new() -> (t: Self)
        ensures
            t@ == Map::<Seq<char>, usize>::empty(),
            t.wf(),
    {
        let t = CountTable { entries: Vec::new() };
        assert(t@ =~= Map::<Seq<char>, usize>::empty());
        t
    }

    pub fn len(&self) -> (n: usize)
        ensures
            n == self.len_spec(),
    {
        self.entries.len()
    }

    /// The key at position `i` in the order of first counting.
    pub fn key_at(&self, i: usize) -> (k: &String)
        requires
            i < self.len_spec(),
        ensures
            k@ == self.keys()[i as int],
    {
        &self.entries[i].0
    }

    fn find(&self, key: &str) -> (r: Option<usize>)
        requires
            self.wf(),
        ensures
            match r {
                Some(i) => i < self.entries@.len() && entry_key(self.entries@[i as int]) == key@,
                None => !self@.contains_key(key@),
            },
    {
        let mut i: usize = 0;
        while i < self.entries.len()
            invariant
                i <= self.entries@.len(),
                forall|j: int| 0 <= j < i ==> entry_key(#[trigger] self.entries@[j]) != key@,
            decreases self.entries@.len() - i,
        {
            if str_eq(self.entries[i].0.as_str(), key) {
                return Some(i);
            }
            i = i + 1;
        }
        None
    }

    /// The count of `key`, zero when it has none.
    pub fn get(&self, key: &str) -> (n: usize)
        requires
            self.wf(),
        ensures
            n == count_of(self@, key@),
    {
        match self.find(key) {
            Some(i) => {
                proof { self.lemma_lookup(i as int); }
                self.entries[i].1
            },
            None => 0,
        }
    }

    proof fn lemma_lookup(&self, i: int)
        requires
            self.wf(),
            0 <= i < self.entries@.len(),
        ensures
            self@.contains_key(entry_key(self.entries@[i])),
            self@[entry_key(self.entries@[i])] == self.entries@[i].1,
    {
        let k = entry_key(self.entries@[i]);
        assert(self@.dom().contains(k));
        let c = choose|j: int| 0 <= j < self.entries@.len() && entry_key(#[trigger] self.entries@[j]) == k;
        if c != i {
            if c < i {
                assert(entry_key(self.entries@[c]) != entry_key(self.entries@[i]));
            } else {
                assert(entry_key(self.entries@[i]) != entry_key(self.entries@[c]));
            }
        }
    }

    /// Adds one to the count of `key`.
    pub fn increment(&mut self, key: &str)
        requires
            old(self).wf(),
            count_of(old(self)@, key@) < usize::MAX,
        ensures
            final(self).wf(),
            final(self)@ == old(self)@.insert(key@, (count_of(old(self)@, key@) + 1) as usize),
    {
        let ghost before = *self;
        match self.find(key) {
            Some(i) => {
                proof { self.lemma_lookup(i as int); }
                let n = self.entries[i].1;
                let k = self.entries[i].0.clone();
                self.entries.set(i, (k, n + 1));
                proof {
                    assert forall|a: int, b: int| 0 <= a < b < self.entries@.len() implies entry_key(
                        #[trigger] self.entries@[a],
                    ) != entry_key(#[trigger] self.entries@[b]) by {
                        assert(entry_key(self.entries@[a]) == entry_key(before.entries@[a]));
                        assert(entry_key(self.entries@[b]) == entry_key(before.entries@[b]));
                    }
                    let m2 = old(self)@.insert(key@, (n + 1) as usize);
                    assert forall|k2: Seq<char>| self@.contains_key(k2) <==> m2.contains_key(k2) by {
                        if self@.contains_key(k2) {
                            let j = choose|j: int| 0 <= j < self.entries@.len() && entry_key(#[trigger] self.entries@[j]) == k2;
                            assert(entry_key(before.entries@[j]) == k2);
                        }
                        if before@.contains_key(k2) {
                            let j = choose|j: int| 0 <= j < before.entries@.len() && entry_key(#[trigger] before.entries@[j]) == k2;
                            assert(entry_key(self.entries@[j]) == k2);
                        }
                    }
                    assert forall|k2: Seq<char>| #[trigger] self@.contains_key(k2) implies self@[k2] == m2[k2] by {
                        let j = choose|j: int| 0 <= j < self.entries@.len() && entry_key(#[trigger] self.entries@[j]) == k2;
                        self.lemma_lookup(j);
                        if j != i {
                            assert(entry_key(before.entries@[j]) == k2);
                            before.lemma_lookup(j);
                        }
                    }
                    assert(self@ =~= m2);
                }
            },
            None => {
                self.entries.push((String::from_str(key), 1));
                proof {
                    let last = self.entries@.len() - 1;
                    assert forall|a: int, b: int| 0 <= a < b < self.entries@.len() implies entry_key(
                        #[trigger] self.entries@[a],
                    ) != entry_key(#[trigger] self.entries@[b]) by {
                        if b == last {
                            assert(entry_key(self.entries@[a]) == entry_key(before.entries@[a]));
                            assert(before@.contains_key(entry_key(before.entries@[a])));
                        } else {
                            assert(entry_key(self.entries@[a]) == entry_key(before.entries@[a]));
                            assert(entry_key(self.entries@[b]) == entry_key(before.entries@[b]));
                        }
                    }
                    let m2 = old(self)@.insert(key@, 1usize);
                    assert forall|k2: Seq<char>| self@.contains_key(k2) <==> m2.contains_key(k2) by {
                        if self@.contains_key(k2) {
                            let j = choose|j: int| 0 <= j < self.entries@.len() && entry_key(#[trigger] self.entries@[j]) == k2;
                            if j < last {
                                assert(entry_key(before.entries@[j]) == k2);
                            }
                        }
                        if before@.contains_key(k2) {
                            let j = choose|j: int| 0 <= j < before.entries@.len() && entry_key(#[trigger] before.entries@[j]) == k2;
                            assert(entry_key(self.entries@[j]) == k2);
                        }
                        if k2 == key@ {
                            assert(entry_key(self.entries@[last]) == k2);
                        }
                    }
                    assert forall|k2: Seq<char>| #[trigger] self@.contains_key(k2) implies self@[k2] == m2[k2] by {
                        let j = choose|j: int| 0 <= j < self.entries@.len() && entry_key(#[trigger] self.entries@[j]) == k2;
                        self.lemma_lookup(j);
                        if j != last {
                            assert(entry_key(before.entries@[j]) == k2);
                            before.lemma_lookup(j);
                        }
                    }
                    assert(self@ =~= m2);
                }
            },
        }
    }

    /// A copy of this table.
    pub fn duplicate(&self) -> (t: Self)
        requires
            self.wf(),
        ensures
            t@ == self@,
            t.wf(),
            t.keys() == self.keys(),
    {
        let mut entries: Vec<(String, usize)> = Vec::new();
        let mut i: usize = 0;
        while i < self.entries.len()
            invariant
                i <= self.entries@.len(),
                entries@.len() == i,
                forall|j: int| 0 <= j < i ==> #[trigger] entries@[j].0@ == self.entries@[j].0@ && entries@[j].1 == self.entries@[j].1,
            decreases self.entries@.len() - i,
        {
            let k = self.entries[i].0.clone();
            entries.push((k, self.entries[i].1));
            i = i + 1;
        }
        let t = CountTable { entries };
        proof {
            assert forall|a: int, b: int| 0 <= a < b < t.entries@.len() implies entry_key(
                #[trigger] t.entries@[a],
            ) != entry_key(#[trigger] t.entries@[b]) by {
                assert(entry_key(t.entries@[a]) == entry_key(self.entries@[a]));
                assert(entry_key(t.entries@[b]) == entry_key(self.entries@[b]));
            }
            assert forall|k2: Seq<char>| t@.contains_key(k2) <==> self@.contains_key(k2) by {
                if t@.contains_key(k2) {
                    let j = choose|j: int| 0 <= j < t.entries@.len() && entry_key(#[trigger] t.entries@[j]) == k2;
                    assert(entry_key(self.entries@[j]) == k2);
                }
                if self@.contains_key(k2) {
                    let j = choose|j: int| 0 <= j < self.entries@.len() && entry_key(#[trigger] self.entries@[j]) == k2;
                    assert(entry_key(t.entries@[j]) == k2);
                }
            }
            assert forall|k2: Seq<char>| #[trigger] t@.contains_key(k2) implies t@[k2] == self@[k2] by {
                let j = choose|j: int| 0 <= j < t.entries@.len() && entry_key(#[trigger] t.entries@[j]) == k2;
                t.lemma_lookup(j);
                assert(entry_key(self.entries@[j]) == k2);
                self.lemma_lookup(j);
            }
            assert(t@ =~= self@);
            assert(t.keys() =~= self.keys());
        }
        t
    }
}

} // verus!
