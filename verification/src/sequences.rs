//! Subsequence relation on sequences, used to state eviction policies.

use vstd::prelude::*;

verus! {

/// Whether `a` is a subsequence of `b`: `a` can be obtained from `b` by
/// deleting elements, keeping the order of the rest.
pub open spec fn subseq_of<A>(a: Seq<A>, b: Seq<A>) -> bool
    decreases a.len() + b.len(),
{
    if a.len() == 0 {
        true
    } else if b.len() == 0 {
        false
    } else {
        (a[0] == b[0] && subseq_of(a.drop_first(), b.drop_first())) || subseq_of(
            a,
            b.drop_first(),
        )
    }
}

/// Every sequence is a subsequence of itself.
pub proof fn lemma_subseq_refl<A>(a: Seq<A>)
    ensures
        subseq_of(a, a),
    decreases a.len(),
{
    if a.len() > 0 {
        lemma_subseq_refl(a.drop_first());
    }
}

/// Removing one element leaves a subsequence.
pub proof fn lemma_subseq_remove<A>(b: Seq<A>, i: int)
    requires
        0 <= i < b.len(),
    ensures
        subseq_of(b.remove(i), b),
    decreases b.len(),
{
    let a = b.remove(i);
    if i == 0 {
        assert(a =~= b.drop_first());
        if a.len() == 0 {
        } else {
            lemma_subseq_refl(a);
        }
    } else {
        assert(a.drop_first() =~= b.drop_first().remove(i - 1));
        lemma_subseq_remove(b.drop_first(), i - 1);
        assert(a[0] == b[0]);
    }
}

/// The subsequence relation is transitive.
pub proof fn lemma_subseq_trans<A>(a: Seq<A>, b: Seq<A>, c: Seq<A>)
    requires
        subseq_of(a, b),
        subseq_of(b, c),
    ensures
        subseq_of(a, c),
    decreases a.len() + b.len() + c.len(),
{
    if a.len() == 0 {
    } else {
        if b.len() == 0 {
            assert(false);
        }
        if c.len() == 0 {
            assert(false);
        }
        if b[0] == c[0] && subseq_of(b.drop_first(), c.drop_first()) {
            if a[0] == b[0] && subseq_of(a.drop_first(), b.drop_first()) {
                lemma_subseq_trans(a.drop_first(), b.drop_first(), c.drop_first());
            } else {
                assert(subseq_of(a, b.drop_first()));
                lemma_subseq_trans(a, b.drop_first(), c.drop_first());
            }
        } else {
            assert(subseq_of(b, c.drop_first()));
            lemma_subseq_trans(a, b, c.drop_first());
        }
    }
}

} // verus!
