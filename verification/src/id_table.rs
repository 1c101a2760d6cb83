//! Tables that hand out integer identifiers to string keys, and the
//! injective encodings that turn compound keys into string keys.

use vstd::prelude::*;
use vstd::hash_map::StringHashMap;
use crate::text::{decimal_text, u64_text, lemma_decimal_digits, lemma_decimal_injective};

verus! {

/// Every identifier in `m` lies in `1..next`, and no two keys share one.
pub open spec fn ids_fresh_below<K>(m: Map<K, u32>, next: u32) -> bool {
    &&& 1 <= next
    &&& forall|k: K| #[trigger] m.contains_key(k) ==> 1 <= m[k] < next
    &&& forall|k1: K, k2: K|
        #[trigger] m.contains_key(k1) && #[trigger] m.contains_key(k2) && k1 != k2 ==> m[k1] != m[k2]
}

/// A map from string keys to identifiers.
pub struct IdTable {
    ids: StringHashMap<u32>,
}

impl View for IdTable {
    type V = Map<Seq<char>, u32>;

    closed spec fn view(&self) -> Map<Seq<char>, u32> {
        self.ids@
    }
}

impl IdTable {
    pub fn new() -> (t: Self)
        ensures
            t@ == Map::<Seq<char>, u32>::empty(),
    {
        IdTable { ids: StringHashMap::new() }
    }

    pub fn clear(&mut self)
        ensures
            final(self)@ == Map::<Seq<char>, u32>::empty(),
    {
        self.ids.clear();
    }

    pub fn get(&self, key: &str) -> (r: Option<u32>)
        ensures
            r == (if self@.contains_key(key@) { Some(self@[key@]) } else { None::<u32> }),
    {
        match self.ids.get(key) {
            Some(id) => Some(*id),
            None => None,
        }
    }

    /// Returns the identifier of `key`; an unknown key gets `*next`, which
    /// then moves on by one.
    pub fn get_or_assign(&mut self, key: &str, next: &mut u32) -> (id: u32)
        requires
            old(self)@.contains_key(key@) || *old(next) < u32::MAX,
        ensures
            old(self)@.contains_key(key@) ==> {
                &&& id == old(self)@[key@]
                &&& final(self)@ == old(self)@
                &&& *final(next) == *old(next)
            },
            !old(self)@.contains_key(key@) ==> {
                &&& id == *old(next)
                &&& final(self)@ == old(self)@.insert(key@, id)
                &&& *final(next) == *old(next) + 1
            },
            (id, final(self)@, *final(next)) == assigned(old(self)@, *old(next), key@),
    {
        match self.ids.get(key) {
            Some(id) => {
                return *id;
            },
            None => {},
        }
        let id = *next;
        self.ids.insert(String::from_str(key), id);
        *next = *next + 1;
        id
    }
}

/// Adding a fresh key with the next identifier keeps identifiers fresh.
pub proof fn lemma_fresh_insert<K>(m: Map<K, u32>, next: u32, k: K)
    requires
        ids_fresh_below(m, next),
        !m.contains_key(k),
        1 <= next < u32::MAX,
    ensures
        ids_fresh_below(m.insert(k, next), (next + 1) as u32),
{
    let m2 = m.insert(k, next);
    assert forall|k1: K| #[trigger] m2.contains_key(k1) implies 1 <= m2[k1] < next + 1 by {
        if k1 != k {
            assert(m.contains_key(k1));
        }
    }
    assert forall|k1: K, k2: K|
        #[trigger] m2.contains_key(k1) && #[trigger] m2.contains_key(k2) && k1 != k2
        implies m2[k1] != m2[k2] by {
        if k1 != k && k2 != k {
            assert(m.contains_key(k1) && m.contains_key(k2));
        } else if k1 == k {
            assert(m.contains_key(k2));
        } else {
            assert(m.contains_key(k1));
        }
    }
}

/// Handing out the identifier of `k` from table `m` with counter `next`:
/// the identifier, the table after, and the counter after.
pub open spec fn assigned<K>(m: Map<K, u32>, next: u32, k: K) -> (u32, Map<K, u32>, u32) {
    if m.contains_key(k) {
        (m[k], m, next)
    } else {
        (next, m.insert(k, next), (next + 1) as u32)
    }
}

/// After a table is emptied with its counter kept, the next key asked for
/// gets the counter, which is none of the identifiers handed out before:
/// no identifier is used twice across an emptying.
pub proof fn lemma_assign_after_clear<K>(before: Map<K, u32>, next: u32, k: K)
    requires
        ids_fresh_below(before, next),
    ensures
        assigned(Map::<K, u32>::empty(), next, k).0 == next,
        forall|k2: K| #[trigger] before.contains_key(k2) ==> before[k2] != assigned(Map::<K, u32>::empty(), next, k).0,
{
}

/// Asking again for the identifier of a key gives the same identifier and
/// changes nothing.
pub proof fn lemma_assign_idempotent<K>(m: Map<K, u32>, next: u32, k: K)
    ensures
        ({
            let (id1, m1, n1) = assigned(m, next, k);
            assigned(m1, n1, k) == (id1, m1, n1)
        }),
{
}

/// After a key is handed its identifier, looking it up gives that
/// identifier, and every key looked up before keeps its identifier.
pub proof fn lemma_assign_then_lookup<K>(m: Map<K, u32>, next: u32, k: K)
    ensures
        ({
            let (id1, m1, n1) = assigned(m, next, k);
            &&& m1.contains_key(k)
            &&& m1[k] == id1
            &&& forall|k2: K| #[trigger] m.contains_key(k2) ==> m1.contains_key(k2) && m1[k2] == m[k2]
        }),
{
}

/// Handing out identifiers keeps them distinct and below the counter: a
/// new key gets an identifier no other key has.
pub proof fn lemma_assign_distinct<K>(m: Map<K, u32>, next: u32, k: K)
    requires
        ids_fresh_below(m, next),
        m.contains_key(k) || next < u32::MAX,
    ensures
        ({
            let (id1, m1, n1) = assigned(m, next, k);
            &&& ids_fresh_below(m1, n1)
            &&& forall|k2: K| #[trigger] m1.contains_key(k2) && k2 != k ==> m1[k2] != id1
        }),
{
    if !m.contains_key(k) {
        lemma_fresh_insert(m, next, k);
    }
    let (id1, m1, n1) = assigned(m, next, k);
    assert forall|k2: K| #[trigger] m1.contains_key(k2) && k2 != k implies m1[k2] != id1 by {
        assert(m1.contains_key(k));
    }
}

/// The string key for the pair `(a, b)`: the length of `a` in decimal,
/// a colon, then `a` and `b`.
pub open spec fn pair_key(a: Seq<char>, b: Seq<char>) -> Seq<char> {
    decimal_text(a.len()) + seq![':'] + a + b
}

/// The string key for `(path, start, end)`: both numbers in decimal, each
/// followed by a colon, then the path.
pub open spec fn span_key(path: Seq<char>, start: nat, end: nat) -> Seq<char> {
    decimal_text(start) + seq![':'] + decimal_text(end) + seq![':'] + path
}

proof fn lemma_colon_splits(d1: Seq<char>, d2: Seq<char>, r1: Seq<char>, r2: Seq<char>)
    requires
        forall|i: int| 0 <= i < d1.len() ==> '0' <= #[trigger] d1[i] <= '9',
        forall|i: int| 0 <= i < d2.len() ==> '0' <= #[trigger] d2[i] <= '9',
        d1 + seq![':'] + r1 == d2 + seq![':'] + r2,
    ensures
        d1 == d2,
        r1 == r2,
{
    let k1 = d1 + seq![':'] + r1;
    let k2 = d2 + seq![':'] + r2;
    if d1.len() < d2.len() {
        assert(k1[d1.len() as int] == ':');
        assert(k2[d1.len() as int] == d2[d1.len() as int]);
    } else if d2.len() < d1.len() {
        assert(k2[d2.len() as int] == ':');
        assert(k1[d2.len() as int] == d1[d2.len() as int]);
    }
    assert(d1 =~= k1.take(d1.len() as int));
    assert(d2 =~= k2.take(d2.len() as int));
    assert(r1 =~= k1.skip(d1.len() as int + 1));
    assert(r2 =~= k2.skip(d2.len() as int + 1));
}

/// Different pairs have different keys.
pub proof fn lemma_pair_key_injective(a1: Seq<char>, b1: Seq<char>, a2: Seq<char>, b2: Seq<char>)
    requires
        pair_key(a1, b1) == pair_key(a2, b2),
    ensures
        a1 == a2,
        b1 == b2,
{
    let d1 = decimal_text(a1.len());
    let d2 = decimal_text(a2.len());
    assert forall|i: int| 0 <= i < d1.len() implies '0' <= #[trigger] d1[i] <= '9' by {
        lemma_decimal_digits(a1.len(), i);
    }
    assert forall|i: int| 0 <= i < d2.len() implies '0' <= #[trigger] d2[i] <= '9' by {
        lemma_decimal_digits(a2.len(), i);
    }
    assert(pair_key(a1, b1) =~= d1 + seq![':'] + (a1 + b1));
    assert(pair_key(a2, b2) =~= d2 + seq![':'] + (a2 + b2));
    lemma_colon_splits(d1, d2, a1 + b1, a2 + b2);
    lemma_decimal_injective(a1.len(), a2.len());
    assert(a1 =~= (a1 + b1).take(a1.len() as int));
    assert(a2 =~= (a2 + b2).take(a2.len() as int));
    assert(b1 =~= (a1 + b1).skip(a1.len() as int));
    assert(b2 =~= (a2 + b2).skip(a2.len() as int));
}

/// Different spans have different keys.
pub proof fn lemma_span_key_injective(p1: Seq<char>, s1: nat, e1: nat, p2: Seq<char>, s2: nat, e2: nat)
    requires
        span_key(p1, s1, e1) == span_key(p2, s2, e2),
    ensures
        p1 == p2,
        s1 == s2,
        e1 == e2,
{
    let ds1 = decimal_text(s1);
    let ds2 = decimal_text(s2);
    let de1 = decimal_text(e1);
    let de2 = decimal_text(e2);
    assert forall|i: int| 0 <= i < ds1.len() implies '0' <= #[trigger] ds1[i] <= '9' by {
        lemma_decimal_digits(s1, i);
    }
    assert forall|i: int| 0 <= i < ds2.len() implies '0' <= #[trigger] ds2[i] <= '9' by {
        lemma_decimal_digits(s2, i);
    }
    assert forall|i: int| 0 <= i < de1.len() implies '0' <= #[trigger] de1[i] <= '9' by {
        lemma_decimal_digits(e1, i);
    }
    assert forall|i: int| 0 <= i < de2.len() implies '0' <= #[trigger] de2[i] <= '9' by {
        lemma_decimal_digits(e2, i);
    }
    let r1 = de1 + seq![':'] + p1;
    let r2 = de2 + seq![':'] + p2;
    assert(span_key(p1, s1, e1) =~= ds1 + seq![':'] + r1);
    assert(span_key(p2, s2, e2) =~= ds2 + seq![':'] + r2);
    lemma_colon_splits(ds1, ds2, r1, r2);
    lemma_colon_splits(de1, de2, p1, p2);
    lemma_decimal_injective(s1, s2);
    lemma_decimal_injective(e1, e2);
}

/// Builds `pair_key(a, b)`.
pub fn make_pair_key(a: &str, b: &str) -> (k: String)
    ensures
        k@ == pair_key(a@, b@),
{
    let n = a.unicode_len();
    let mut k = u64_text(n as u64);
    k.append(":");
    k.append(a);
    k.append(b);
    proof { reveal_strlit(":"); }
    assert(k@ =~= pair_key(a@, b@));
    k
}

/// Builds `span_key(path, start, end)`.
pub fn make_span_key(path: &str, start: usize, end: usize) -> (k: String)
    ensures
        k@ == span_key(path@, start as nat, end as nat),
{
    let mut k = u64_text(start as u64);
    k.append(":");
    let e = u64_text(end as u64);
    k.append(e.as_str());
    k.append(":");
    k.append(path);
    proof { reveal_strlit(":"); }
    assert(k@ =~= span_key(path@, start as nat, end as nat));
    k
}

} // verus!
