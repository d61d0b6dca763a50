//! Facts about sequences used by the proofs.

use vstd::prelude::*;

verus! {

/// Filtering a prefix one element longer adds that element exactly when it
/// satisfies the predicate.
pub proof fn lemma_filter_prefix_step<A>(s: Seq<A>, i: int, p: spec_fn(A) -> bool)
    requires
        0 <= i < s.len(),
    ensures
        s.subrange(0, i + 1).filter(p) == if p(s[i]) {
            s.subrange(0, i).filter(p).push(s[i])
        } else {
            s.subrange(0, i).filter(p)
        },
{
    reveal(Seq::filter);
    assert(s.subrange(0, i + 1).drop_last() =~= s.subrange(0, i));
    assert(s.subrange(0, i + 1).last() == s[i]);
}

/// Filtering the whole sequence as a prefix.
pub proof fn lemma_filter_full_prefix<A>(s: Seq<A>, p: spec_fn(A) -> bool)
    ensures
        s.subrange(0, s.len() as int).filter(p) == s.filter(p),
{
    assert(s.subrange(0, s.len() as int) =~= s);
}

/// Filtering after appending one element.
pub proof fn lemma_filter_push<A>(s: Seq<A>, x: A, p: spec_fn(A) -> bool)
    ensures
        s.push(x).filter(p) == if p(x) {
            s.filter(p).push(x)
        } else {
            s.filter(p)
        },
{
    reveal(Seq::filter);
    assert(s.push(x).drop_last() =~= s);
}

/// Filtering the empty sequence.
pub proof fn lemma_filter_empty<A>(p: spec_fn(A) -> bool)
    ensures
        Seq::<A>::empty().filter(p) == Seq::<A>::empty(),
{
    reveal(Seq::filter);
}

} // verus!
