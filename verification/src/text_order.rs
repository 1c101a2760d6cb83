//! The lexicographic order of strings by character code, which is the order
//! in which `String` values sort, and a sort of string lists by it.

use vstd::prelude::*;
use crate::text::chars_of;

verus! {

/// `a` comes strictly before `b`: at the first position where they differ
/// `a` has the smaller character, or `a` is a proper prefix of `b`.
pub open spec fn text_less(a: Seq<char>, b: Seq<char>) -> bool
    decreases a.len(),
{
    if a.len() == 0 {
        b.len() > 0
    } else if b.len() == 0 {
        false
    } else if a[0] != b[0] {
        a[0] < b[0]
    } else {
        text_less(a.drop_first(), b.drop_first())
    }
}

pub proof fn lemma_text_less_irreflexive(a: Seq<char>)
    ensures
        !text_less(a, a),
    decreases a.len(),
{
    if a.len() > 0 {
        lemma_text_less_irreflexive(a.drop_first());
    }
}

pub proof fn lemma_text_less_total(a: Seq<char>, b: Seq<char>)
    ensures
        a == b || text_less(a, b) || text_less(b, a),
    decreases a.len(),
{
    if a.len() > 0 && b.len() > 0 {
        if a[0] == b[0] {
            lemma_text_less_total(a.drop_first(), b.drop_first());
            if a.drop_first() == b.drop_first() {
                assert(a =~= seq![a[0]] + a.drop_first());
                assert(b =~= seq![b[0]] + b.drop_first());
            }
        }
    } else if a.len() == 0 && b.len() == 0 {
        assert(a =~= b);
    }
}

pub proof fn lemma_text_less_asymmetric(a: Seq<char>, b: Seq<char>)
    requires
        text_less(a, b),
    ensures
        !text_less(b, a),
    decreases a.len(),
{
    if a.len() > 0 && b.len() > 0 && a[0] == b[0] {
        lemma_text_less_asymmetric(a.drop_first(), b.drop_first());
    }
}

pub proof fn lemma_text_less_transitive(a: Seq<char>, b: Seq<char>, c: Seq<char>)
    requires
        text_less(a, b),
        text_less(b, c),
    ensures
        text_less(a, c),
    decreases a.len(),
{
    if a.len() > 0 && b.len() > 0 && c.len() > 0 {
        if a[0] == b[0] && b[0] == c[0] {
            lemma_text_less_transitive(a.drop_first(), b.drop_first(), c.drop_first());
        }
    }
}

/// Whether `a` comes strictly before `b`.
pub fn str_less(a: &str, b: &str) -> (r: bool)
    ensures
        r == text_less(a@, b@),
{
    let va = chars_of(a);
    let vb = chars_of(b);
    let mut i: usize = 0;
    assert(a@.skip(0) =~= a@);
    assert(b@.skip(0) =~= b@);
    while i < va.len() && i < vb.len() && va[i] == vb[i]
        invariant
            va@ == a@,
            vb@ == b@,
            i <= va@.len(),
            i <= vb@.len(),
            text_less(a@, b@) == text_less(a@.skip(i as int), b@.skip(i as int)),
        decreases va.len() - i,
    {
        assert(a@.skip(i as int).drop_first() =~= a@.skip(i as int + 1));
        assert(b@.skip(i as int).drop_first() =~= b@.skip(i as int + 1));
        i = i + 1;
    }
    if i == va.len() {
        i < vb.len()
    } else if i == vb.len() {
        false
    } else {
        assert(a@.skip(i as int)[0] == va@[i as int]);
        assert(b@.skip(i as int)[0] == vb@[i as int]);
        va[i] < vb[i]
    }
}

/// Each element of `s` comes strictly before every later one.
pub open spec fn strictly_sorted(s: Seq<Seq<char>>) -> bool {
    forall|i: int, j: int| 0 <= i < j < s.len() ==> text_less(#[trigger] s[i], #[trigger] s[j])
}

/// The views of a list of strings.
pub open spec fn texts(v: Seq<String>) -> Seq<Seq<char>> {
    v.map_values(|s: String| s@)
}

/// Inserts `x` into the strictly sorted list `v`, unless `v` holds it already.
pub fn insert_sorted(v: &mut Vec<String>, x: String)
    requires
        strictly_sorted(texts(old(v)@)),
    ensures
        strictly_sorted(texts(final(v)@)),
        texts(final(v)@).to_set() == texts(old(v)@).to_set().insert(x@),
{
    let ghost old_t = texts(v@);
    let mut p: usize = 0;
    while p < v.len()
        invariant
            p <= v@.len(),
            texts(v@) == old_t,
            strictly_sorted(old_t),
            forall|j: int| 0 <= j < p ==> text_less(#[trigger] old_t[j], x@),
        ensures
            p <= v@.len(),
            texts(v@) == old_t,
            forall|j: int| 0 <= j < p ==> text_less(#[trigger] old_t[j], x@),
            p < v@.len() ==> text_less(x@, old_t[p as int]),
        decreases v@.len() - p,
    {
        if str_less(x.as_str(), v[p].as_str()) {
            break;
        }
        if crate::text::str_eq(x.as_str(), v[p].as_str()) {
            assert(old_t[p as int] == x@);
            assert(old_t.contains(x@));
            assert(old_t.to_set().insert(x@) =~= old_t.to_set());
            return;
        }
        proof {
            lemma_text_less_total(x@, v@[p as int]@);
        }
        p = p + 1;
    }
    // every element before p comes before x; x comes before every element from p on
    proof {
        if p < old_t.len() {
            assert forall|j: int| p <= j < old_t.len() implies text_less(x@, #[trigger] old_t[j]) by {
                if j > p {
                    lemma_text_less_transitive(x@, old_t[p as int], old_t[j]);
                }
            }
        }
    }
    v.insert(p, x);
    proof {
        let t = texts(v@);
        assert(t =~= old_t.insert(p as int, x@));
        assert forall|i: int, j: int| 0 <= i < j < t.len() implies text_less(#[trigger] t[i], #[trigger] t[j]) by {
            if i < p && j < p {
                assert(t[i] == old_t[i] && t[j] == old_t[j]);
            } else if i < p && j == p {
                assert(t[i] == old_t[i]);
            } else if i < p && j > p {
                assert(t[i] == old_t[i]);
                assert(t[j] == old_t[j - 1]);
            } else if i == p {
                assert(t[j] == old_t[j - 1]);
            } else {
                assert(t[i] == old_t[i - 1]);
                assert(t[j] == old_t[j - 1]);
            }
        }
        assert forall|y: Seq<char>| t.to_set().contains(y) <==> old_t.to_set().insert(x@).contains(y) by {
            if t.contains(y) {
                let k = choose|k: int| 0 <= k < t.len() && #[trigger] t[k] == y;
                if k < p {
                    assert(old_t[k] == y);
                } else if k > p {
                    assert(old_t[k - 1] == y);
                }
            }
            if old_t.contains(y) {
                let k = choose|k: int| 0 <= k < old_t.len() && #[trigger] old_t[k] == y;
                if k < p {
                    assert(t[k] == y);
                } else {
                    assert(t[k + 1] == y);
                }
            }
            if y == x@ {
                assert(t[p as int] == y);
            }
        }
        assert(t.to_set() =~= old_t.to_set().insert(x@));
    }
}

} // verus!
