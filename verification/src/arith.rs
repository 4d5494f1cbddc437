//! Bounds on products, used to show that the fixed-point arithmetic never overflows.

use vstd::prelude::*;

verus! {

/// A product is bounded in magnitude by the product of the bounds on its factors.
pub proof fn lemma_product_bound(a: int, b: int, bound_a: int, bound_b: int)
    requires
        -bound_a <= a <= bound_a,
        -bound_b <= b <= bound_b,
    ensures
        -(bound_a * bound_b) <= a * b <= bound_a * bound_b,
{
    assert(-(bound_a * bound_b) <= a * b <= bound_a * bound_b) by (nonlinear_arith)
        requires
            -bound_a <= a <= bound_a,
            -bound_b <= b <= bound_b,
    ;
}

/// Multiplying by a larger non-negative factor moves a product away from zero, or leaves it.
pub proof fn lemma_scale_monotone(a: int, s: int, t: int)
    requires
        0 <= s <= t,
    ensures
        a >= 0 ==> a * s <= a * t,
        a <= 0 ==> a * s >= a * t,
{
    assert(a >= 0 ==> a * s <= a * t) by (nonlinear_arith)
        requires
            0 <= s <= t,
    ;
    assert(a <= 0 ==> a * s >= a * t) by (nonlinear_arith)
        requires
            0 <= s <= t,
    ;
}

} // verus!
