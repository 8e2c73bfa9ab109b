//! Finite sums over sets of transaction ids.
use vstd::prelude::*;

verus! {

/// The sum of `f` over the finite set `s`.
pub open spec fn set_sum(s: Set<u32>, f: spec_fn(u32) -> int) -> int
    decreases s.len(),
    when s.finite()
{
    if s.len() == 0 {
        0
    } else {
        let x = s.choose();
        f(x) + set_sum(s.remove(x), f)
    }
}

/// Any element of the set can be taken out of the sum first.
pub proof fn lemma_set_sum_remove(s: Set<u32>, f: spec_fn(u32) -> int, x: u32)
    requires
        s.finite(),
        s.contains(x),
    ensures
        set_sum(s, f) == f(x) + set_sum(s.remove(x), f),
    decreases s.len(),
{
    let y = s.choose();
    if y != x {
        lemma_set_sum_remove(s.remove(y), f, x);
        lemma_set_sum_remove(s.remove(x), f, y);
        assert(s.remove(y).remove(x) =~= s.remove(x).remove(y));
    }
}

/// The sum depends only on the values of `f` on the set.
pub proof fn lemma_set_sum_agree(s: Set<u32>, f: spec_fn(u32) -> int, g: spec_fn(u32) -> int)
    requires
        s.finite(),
        forall|x: u32| s.contains(x) ==> f(x) == g(x),
    ensures
        set_sum(s, f) == set_sum(s, g),
    decreases s.len(),
{
    if s.len() != 0 {
        let x = s.choose();
        lemma_set_sum_agree(s.remove(x), f, g);
    }
}

/// A sum of non-negative terms is at least each of its terms.
pub proof fn lemma_set_sum_nonneg(s: Set<u32>, f: spec_fn(u32) -> int)
    requires
        s.finite(),
        forall|x: u32| s.contains(x) ==> f(x) >= 0,
    ensures
        set_sum(s, f) >= 0,
        forall|x: u32| s.contains(x) ==> f(x) <= set_sum(s, f),
    decreases s.len(),
{
    if s.len() != 0 {
        let y = s.choose();
        lemma_set_sum_nonneg(s.remove(y), f);
        assert forall|x: u32| s.contains(x) implies f(x) <= set_sum(s, f) by {
            if x != y {
                assert(s.remove(y).contains(x));
            }
        }
    }
}

} // verus!
