//! Facts about division that rounds down and division that rounds up.

use vstd::prelude::*;

verus! {

/// `x / d`, rounded up to the next whole number.
pub open spec fn ceil_div(x: int, d: int) -> int {
    (x + d - 1) / d
}

/// A quotient that rounds down is the greatest `q` with `q * d <= x`.
pub proof fn lemma_floor_div_bounds(x: int, d: int)
    requires
        0 < d,
    ensures
        (x / d) * d <= x < (x / d) * d + d,
{
    vstd::arithmetic::div_mod::lemma_fundamental_div_mod(x, d);
    vstd::arithmetic::div_mod::lemma_mod_bound(x, d);
    assert(d * (x / d) == (x / d) * d) by (nonlinear_arith);
}

/// A `q` with `q * d <= x < q * d + d` is the quotient that rounds down.
pub proof fn lemma_floor_div_unique(x: int, d: int, q: int)
    requires
        0 < d,
        q * d <= x < q * d + d,
    ensures
        x / d == q,
{
    lemma_floor_div_bounds(x, d);
    let p = x / d;
    assert(p == q) by (nonlinear_arith)
        requires
            0 < d,
            q * d <= x < q * d + d,
            p * d <= x < p * d + d,
    ;
}

/// A quotient that rounds up is the least `q` with `q * d >= x`.
pub proof fn lemma_ceil_div_bounds(x: int, d: int)
    requires
        0 < d,
    ensures
        ceil_div(x, d) * d - d < x <= ceil_div(x, d) * d,
{
    lemma_floor_div_bounds(x + d - 1, d);
}

/// A `q` with `q * d - d < x <= q * d` is the quotient that rounds up.
pub proof fn lemma_ceil_div_unique(x: int, d: int, q: int)
    requires
        0 < d,
        q * d - d < x <= q * d,
    ensures
        ceil_div(x, d) == q,
{
    lemma_floor_div_unique(x + d - 1, d, q);
}

/// The product of two values that fit in 64 bits, and a little more, fits in 128 bits.
pub proof fn lemma_product_fits(a: u64, b: u64)
    ensures
        0 <= a * b <= 0xFFFF_FFFF_FFFF_FFFE_0000_0000_0000_0001,
{
    assert(0 <= a * b <= 0xFFFF_FFFF_FFFF_FFFF * 0xFFFF_FFFF_FFFF_FFFF) by (nonlinear_arith)
        requires
            0 <= a <= 0xFFFF_FFFF_FFFF_FFFF,
            0 <= b <= 0xFFFF_FFFF_FFFF_FFFF,
    ;
}

} // verus!
