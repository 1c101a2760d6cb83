//! Small collections keyed by text: a map from text to text and a set of
//! texts, each kept in the order of first insertion.

use vstd::prelude::*;
use crate::text::{str_eq, texts_of};

verus! {

/// A map from text to text; a key is listed once.
pub struct TextMap {
    entries: Vec<(String, String)>,
}

pub open spec fn pair_key(e: (String, String)) -> Seq<char> {
    e.0@
}

impl View for TextMap {
    type V = Map<Seq<char>, Seq<char>>;

    closed spec fn view(&self) -> Map<Seq<char>, Seq<char>> {
        Map::new(
            |k: Seq<char>| exists|i: int| 0 <= i < self.entries@.len() && pair_key(#[trigger] self.entries@[i]) == k,
            |k: Seq<char>| self.entries@[choose|i: int| 0 <= i < self.entries@.len() && pair_key(#[trigger] self.entries@[i]) == k].1@,
        )
    }
}

impl TextMap {
    /// No key is listed twice.
    pub closed spec fn wf(&self) -> bool {
        forall|i: int, j: int|
            0 <= i < j < self.entries@.len() ==> pair_key(#[trigger] self.entries@[i]) != pair_key(#[trigger] self.entries@[j])
    }

    /// The keys in the order of first insertion.
    pub closed spec fn keys(&self) -> Seq<Seq<char>> {
        self.entries@.map_values(|e: (String, String)| e.0@)
    }

    pub closed spec fn len_spec(&self) -> nat {
        self.entries@.len()
    }

    pub fn new() -> (m: Self)
        ensures
            m@ == Map::<Seq<char>, Seq<char>>::empty(),
            m.wf(),
            m.len_spec() == 0,
    {
        let m = TextMap { entries: Vec::new() };
        assert(m@ =~= Map::<Seq<char>, Seq<char>>::empty());
        m
    }

    pub fn len(&self) -> (n: usize)
        ensures
            n == self.len_spec(),
    {
        self.entries.len()
    }

    /// The key and value at position `i`.
    pub fn entry_at(&self, i: usize) -> (e: (&String, &String))
        requires
            self.wf(),
            i < self.len_spec(),
        ensures
            e.0@ == self.keys()[i as int],
            self@.contains_key(e.0@),
            self@[e.0@] == e.1@,
    {
        proof {
            self.lemma_lookup(i as int);
        }
        (&self.entries[i].0, &self.entries[i].1)
    }

    pub proof fn lemma_keys(&self)
        requires
            self.wf(),
        ensures
            self.keys().to_set() == self@.dom(),
            self.keys().len() == self.len_spec(),
    {
        assert forall|k: Seq<char>| self.keys().to_set().contains(k) <==> self@.dom().contains(k) by {
            if self@.dom().contains(k) {
                let i = choose|i: int| 0 <= i < self.entries@.len() && pair_key(#[trigger] self.entries@[i]) == k;
                assert(self.keys()[i] == k);
            }
            if self.keys().contains(k) {
                let i = choose|i: int| 0 <= i < self.keys().len() && #[trigger] self.keys()[i] == k;
                assert(pair_key(self.entries@[i]) == k);
            }
        }
        assert(self.keys().to_set() =~= self@.dom());
    }

    proof fn lemma_lookup(&self, i: int)
        requires
            self.wf(),
            0 <= i < self.entries@.len(),
        ensures
            self@.contains_key(pair_key(self.entries@[i])),
            self@[pair_key(self.entries@[i])] == self.entries@[i].1@,
    {
        let k = pair_key(self.entries@[i]);
        assert(self@.dom().contains(k));
        let c = choose|j: int| 0 <= j < self.entries@.len() && pair_key(#[trigger] self.entries@[j]) == k;
        if c != i {
            if c < i {
                assert(pair_key(self.entries@[c]) != pair_key(self.entries@[i]));
            } else {
                assert(pair_key(self.entries@[i]) != pair_key(self.entries@[c]));
            }
        }
    }

    fn find(&self, key: &str) -> (r: Option<usize>)
        requires
            self.wf(),
        ensures
            match r {
                Some(i) => i < self.entries@.len() && pair_key(self.entries@[i as int]) == key@,
                None => !self@.contains_key(key@),
            },
    {
        let mut i: usize = 0;
        while i < self.entries.len()
            invariant
                i <= self.entries@.len(),
                forall|j: int| 0 <= j < i ==> pair_key(#[trigger] self.entries@[j]) != key@,
            decreases self.entries@.len() - i,
        {
            if str_eq(self.entries[i].0.as_str(), key) {
                return Some(i);
            }
            i = i + 1;
        }
        None
    }

    /// The value under `key`.
    pub fn get(&self, key: &str) -> (r: Option<&String>)
        requires
            self.wf(),
        ensures
            match r {
                Some(v) => self@.contains_key(key@) && self@[key@] == v@,
                None => !self@.contains_key(key@),
            },
    {
        match self.find(key) {
            Some(i) => {
                proof {
                    self.lemma_lookup(i as int);
                }
                Some(&self.entries[i].1)
            },
            None => None,
        }
    }

    /// Puts `value` under `key`, replacing the value there.
    pub fn insert(&mut self, key: String, value: String)
        requires
            old(self).wf(),
        ensures
            final(self).wf(),
            final(self)@ == old(self)@.insert(key@, value@),
    {
        let ghost before = *self;
        let ghost k = key@;
        let ghost val = value@;
        match self.find(key.as_str()) {
            Some(i) => {
                self.entries.set(i, (key, value));
                proof {
                    assert forall|a: int, b: int| 0 <= a < b < self.entries@.len() implies pair_key(
                        #[trigger] self.entries@[a],
                    ) != pair_key(#[trigger] self.entries@[b]) by {
                        assert(pair_key(self.entries@[a]) == pair_key(before.entries@[a]));
                        assert(pair_key(self.entries@[b]) == pair_key(before.entries@[b]));
                    }
                    assert forall|q: Seq<char>| #[trigger] self@.contains_key(q) <==> before@.insert(k, val).contains_key(q) by {
                        if self@.contains_key(q) {
                            let j = choose|j: int| 0 <= j < self.entries@.len() && pair_key(#[trigger] self.entries@[j]) == q;
                            if j != i {
                                assert(pair_key(before.entries@[j]) == q);
                            }
                        }
                        if before@.contains_key(q) {
                            let j = choose|j: int| 0 <= j < before.entries@.len() && pair_key(#[trigger] before.entries@[j]) == q;
                            assert(pair_key(self.entries@[j]) == q);
                        }
                    }
                    assert forall|q: Seq<char>| #[trigger] self@.contains_key(q) implies self@[q] == before@.insert(k, val)[q] by {
                        let j = choose|j: int| 0 <= j < self.entries@.len() && pair_key(#[trigger] self.entries@[j]) == q;
                        self.lemma_lookup(j);
                        if j != i {
                            before.lemma_lookup(j);
                        }
                    }
                    assert(self@ =~= before@.insert(k, val));
                }
            },
            None => {
                self.entries.push((key, value));
                proof {
                    let n = before.entries@.len() as int;
                    assert forall|a: int, b: int| 0 <= a < b < self.entries@.len() implies pair_key(
                        #[trigger] self.entries@[a],
                    ) != pair_key(#[trigger] self.entries@[b]) by {
                        assert(pair_key(self.entries@[a]) == pair_key(before.entries@[a]));
                        if b < n {
                            assert(pair_key(self.entries@[b]) == pair_key(before.entries@[b]));
                        } else if pair_key(before.entries@[a]) == k {
                            assert(before@.contains_key(k));
                        }
                    }
                    assert forall|q: Seq<char>| #[trigger] self@.contains_key(q) <==> before@.insert(k, val).contains_key(q) by {
                        if self@.contains_key(q) {
                            let j = choose|j: int| 0 <= j < self.entries@.len() && pair_key(#[trigger] self.entries@[j]) == q;
                            if j < n {
                                assert(pair_key(before.entries@[j]) == q);
                            }
                        }
                        if before@.contains_key(q) {
                            let j = choose|j: int| 0 <= j < before.entries@.len() && pair_key(#[trigger] before.entries@[j]) == q;
                            assert(pair_key(self.entries@[j]) == q);
                        }
                        if q == k {
                            assert(pair_key(self.entries@[n]) == k);
                        }
                    }
                    assert forall|q: Seq<char>| #[trigger] self@.contains_key(q) implies self@[q] == before@.insert(k, val)[q] by {
                        let j = choose|j: int| 0 <= j < self.entries@.len() && pair_key(#[trigger] self.entries@[j]) == q;
                        self.lemma_lookup(j);
                        if j < n {
                            before.lemma_lookup(j);
                        }
                    }
                    assert(self@ =~= before@.insert(k, val));
                }
            },
        }
    }
}

/// A set of texts, in the order of first insertion; none listed twice.
pub struct TextSet {
    items: Vec<String>,
}

impl View for TextSet {
    type V = Set<Seq<char>>;

    closed spec fn view(&self) -> Set<Seq<char>> {
        texts_of(self.items@).to_set()
    }
}

impl TextSet {
    pub closed spec fn wf(&self) -> bool {
        texts_of(self.items@).no_duplicates()
    }

    /// The texts in the order of first insertion.
    pub closed spec fn items(&self) -> Seq<Seq<char>> {
        texts_of(self.items@)
    }

    pub proof fn lemma_items(&self)
        ensures
            self.items().to_set() == self@,
    {
    }

    pub fn new() -> (s: Self)
        ensures
            s@ == Set::<Seq<char>>::empty(),
            s.wf(),
            s.items().len() == 0,
    {
        let s = TextSet { items: Vec::new() };
        assert(s@ =~= Set::<Seq<char>>::empty());
        s
    }

    pub fn len(&self) -> (n: usize)
        ensures
            n == self.items().len(),
    {
        self.items.len()
    }

    pub fn item_at(&self, i: usize) -> (t: &String)
        requires
            i < self.items().len(),
        ensures
            t@ == self.items()[i as int],
    {
        &self.items[i]
    }

    pub fn contains(&self, t: &str) -> (b: bool)
        ensures
            b == self@.contains(t@),
    {
        let mut i: usize = 0;
        while i < self.items.len()
            invariant
                i <= self.items@.len(),
                forall|j: int| 0 <= j < i ==> self.items@[j]@ != t@,
            decreases self.items@.len() - i,
        {
            if str_eq(self.items[i].as_str(), t) {
                assert(texts_of(self.items@)[i as int] == t@);
                return true;
            }
            i = i + 1;
        }
        proof {
            if texts_of(self.items@).contains(t@) {
                let j = choose|j: int| 0 <= j < texts_of(self.items@).len() && texts_of(self.items@)[j] == t@;
                assert(self.items@[j]@ == t@);
            }
        }
        false
    }

    /// Adds `t` unless it is there.
    pub fn insert(&mut self, t: String)
        requires
            old(self).wf(),
        ensures
            final(self).wf(),
            final(self)@ == old(self)@.insert(t@),
            old(self)@.contains(t@) ==> final(self).items() == old(self).items(),
            !old(self)@.contains(t@) ==> final(self).items() == old(self).items().push(t@),
    {
        if !self.contains(t.as_str()) {
            let ghost before = self.items@;
            self.items.push(t);
            proof {
                assert(texts_of(self.items@) =~= texts_of(before).push(t@));
                crate::seq_util::lemma_push_to_set(texts_of(before), t@);
                assert forall|a: int, b: int| 0 <= a < b < texts_of(self.items@).len() implies
                    texts_of(self.items@)[a] != texts_of(self.items@)[b] by {
                    if b == texts_of(before).len() {
                        assert(texts_of(before).contains(texts_of(before)[a]));
                    }
                }
            }
        }
    }
}

} // verus!
