//! Selecting and projecting the elements of a sequence.

use vstd::prelude::*;

verus! {

/// The values that `f` picks out of `s`, in order: every element for which
/// `f` gives `Some(v)` contributes `v`; the others contribute nothing.
pub open spec fn pick<A, B>(s: Seq<A>, f: spec_fn(A) -> Option<B>) -> Seq<B>
    decreases s.len(),
{
    if s.len() == 0 {
        Seq::empty()
    } else {
        let rest = pick(s.drop_last(), f);
        match f(s.last()) {
            Some(v) => rest.push(v),
            None => rest,
        }
    }
}

/// Picking from a concatenation picks from each part.
pub proof fn lemma_pick_concat<A, B>(a: Seq<A>, b: Seq<A>, f: spec_fn(A) -> Option<B>)
    ensures
        pick(a + b, f) == pick(a, f) + pick(b, f),
    decreases b.len(),
{
    if b.len() == 0 {
        assert(a + b == a);
        assert(pick(b, f) == Seq::<B>::empty());
        assert(pick(a, f) + Seq::<B>::empty() == pick(a, f));
    } else {
        assert((a + b).drop_last() == a + b.drop_last());
        assert((a + b).last() == b.last());
        lemma_pick_concat(a, b.drop_last(), f);
        match f(b.last()) {
            Some(v) => {
                assert(pick(a, f) + pick(b.drop_last(), f).push(v) == (pick(a, f) + pick(
                    b.drop_last(),
                    f,
                )).push(v));
            },
            None => {},
        }
    }
}

/// Picking from one element.
pub proof fn lemma_pick_single<A, B>(x: A, f: spec_fn(A) -> Option<B>)
    ensures
        pick(seq![x], f) == (match f(x) {
            Some(v) => seq![v],
            None => Seq::<B>::empty(),
        }),
{
    assert(seq![x].drop_last() == Seq::<A>::empty());
    assert(seq![x].last() == x);
    assert(pick(Seq::<A>::empty(), f) == Seq::<B>::empty());
    match f(x) {
        Some(v) => {
            assert(Seq::<B>::empty().push(v) == seq![v]);
        },
        None => {},
    }
}

/// Picking from a prefix extended by one element.
pub proof fn lemma_pick_take_step<A, B>(s: Seq<A>, n: int, f: spec_fn(A) -> Option<B>)
    requires
        0 <= n < s.len(),
    ensures
        pick(s.take(n + 1), f) == pick(s.take(n), f) + pick(seq![s[n]], f),
{
    assert(s.take(n + 1) == s.take(n) + seq![s[n]]);
    lemma_pick_concat(s.take(n), seq![s[n]], f);
}

/// A prefix never picks more than the whole sequence.
pub proof fn lemma_pick_take_len<A, B>(s: Seq<A>, n: int, f: spec_fn(A) -> Option<B>)
    requires
        0 <= n <= s.len(),
    ensures
        pick(s.take(n), f).len() <= pick(s, f).len(),
    decreases s.len() - n,
{
    if n < s.len() {
        lemma_pick_take_step(s, n, f);
        lemma_pick_single(s[n], f);
        lemma_pick_take_len(s, n + 1, f);
    } else {
        assert(s.take(n) == s);
    }
}

} // verus!
