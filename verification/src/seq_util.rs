//! Sequence combinators used to state what list-building loops produce.

use vstd::prelude::*;

verus! {

/// The images under `f` of the elements of `s` that `f` maps to `Some`, in order.
pub open spec fn filter_map<A, B>(s: Seq<A>, f: spec_fn(A) -> Option<B>) -> Seq<B>
    decreases s.len(),
{
    if s.len() == 0 {
        Seq::empty()
    } else {
        let prefix = filter_map(s.drop_last(), f);
        match f(s.last()) {
            Some(b) => prefix.push(b),
            None => prefix,
        }
    }
}

/// One more element of the input adds at most its image to the output.
pub proof fn lemma_filter_map_step<A, B>(s: Seq<A>, f: spec_fn(A) -> Option<B>, i: int)
    requires
        0 <= i < s.len(),
    ensures
        filter_map(s.take(i + 1), f) == (match f(s[i]) {
            Some(b) => filter_map(s.take(i), f).push(b),
            None => filter_map(s.take(i), f),
        }),
{
    assert(s.take(i + 1).drop_last() =~= s.take(i));
    assert(s.take(i + 1).last() == s[i]);
}

/// Mapping a nonempty sequence: what its first element maps to, if
/// anything, then the mapping of the rest.
pub proof fn lemma_filter_map_front<A, B>(s: Seq<A>, f: spec_fn(A) -> Option<B>)
    requires
        s.len() > 0,
    ensures
        filter_map(s, f) == (match f(s[0]) {
            Some(b) => seq![b] + filter_map(s.skip(1), f),
            None => filter_map(s.skip(1), f),
        }),
    decreases s.len(),
{
    if s.len() == 1 {
        assert(s.skip(1) =~= Seq::<A>::empty());
        assert(s.drop_last() =~= Seq::<A>::empty());
        match f(s[0]) {
            Some(b) => { assert(Seq::<B>::empty().push(b) =~= seq![b] + Seq::<B>::empty()); },
            None => {},
        }
    } else {
        let init = s.drop_last();
        lemma_filter_map_front(init, f);
        assert(init[0] == s[0]);
        assert(init.skip(1) =~= s.skip(1).drop_last());
        assert(s.skip(1).last() == s.last());
        match f(s[0]) {
            Some(b) => {
                match f(s.last()) {
                    Some(c) => {
                        assert((seq![b] + filter_map(init.skip(1), f)).push(c) =~= seq![b] + filter_map(init.skip(1), f).push(c));
                    },
                    None => {},
                }
            },
            None => {},
        }
    }
}

/// The output is no longer than the input.
pub proof fn lemma_filter_map_len<A, B>(s: Seq<A>, f: spec_fn(A) -> Option<B>)
    ensures
        filter_map(s, f).len() <= s.len(),
    decreases s.len(),
{
    if s.len() > 0 {
        lemma_filter_map_len(s.drop_last(), f);
    }
}

} // verus!

verus! {

/// The elements of `s` with `x` pushed are those of `s` and `x`.
pub proof fn lemma_push_to_set<A>(s: Seq<A>, x: A)
    ensures
        s.push(x).to_set() == s.to_set().insert(x),
{
    assert forall|y: A| s.push(x).to_set().contains(y) <==> s.to_set().insert(x).contains(y) by {
        if s.push(x).contains(y) {
            let k = choose|k: int| 0 <= k < s.push(x).len() && #[trigger] s.push(x)[k] == y;
            if k < s.len() {
                assert(s[k] == y);
            }
        }
        if s.contains(y) {
            let k = choose|k: int| 0 <= k < s.len() && #[trigger] s[k] == y;
            assert(s.push(x)[k] == y);
        }
        if y == x {
            assert(s.push(x)[s.len() as int] == y);
        }
    }
    assert(s.push(x).to_set() =~= s.to_set().insert(x));
}

} // verus!
