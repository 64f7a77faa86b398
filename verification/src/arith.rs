//! Widening multiplication followed by floor division.

use vstd::prelude::*;

verus! {

/// The largest product of two 64-bit values.
pub open spec fn max_product() -> int {
    0xFFFF_FFFF_FFFF_FFFE_0000_0000_0000_0001
}

/// `a * b / c` over the mathematical integers, rounded down.
pub open spec fn mul_div_floor(a: int, b: int, c: int) -> int {
    (a * b) / c
}

/// The product of two 64-bit values fits in 128 bits.
pub proof fn lemma_product_fits(a: u64, b: u64)
    ensures
        0 <= a * b <= max_product(),
        max_product() < u128::MAX,
{
    assert(0 <= a * b <= 0xFFFF_FFFF_FFFF_FFFF * 0xFFFF_FFFF_FFFF_FFFF) by (nonlinear_arith)
        requires
            0 <= a <= 0xFFFF_FFFF_FFFF_FFFF,
            0 <= b <= 0xFFFF_FFFF_FFFF_FFFF,
    ;
}

/// A floor quotient never exceeds its dividend, and lies between the two
/// multiples of the divisor that enclose the dividend.
pub proof fn lemma_floor_bounds(n: int, d: int)
    requires
        0 <= n,
        0 < d,
    ensures
        0 <= n / d <= n,
        (n / d) * d <= n < (n / d + 1) * d,
{
    assert(0 <= n / d <= n && (n / d) * d <= n < (n / d + 1) * d) by (nonlinear_arith)
        requires
            0 <= n,
            0 < d,
    ;
}

/// Floor division by a fixed positive divisor is monotone in the dividend.
pub proof fn lemma_floor_monotone(m: int, n: int, d: int)
    requires
        0 <= m <= n,
        0 < d,
    ensures
        m / d <= n / d,
{
    assert(m / d <= n / d) by (nonlinear_arith)
        requires
            0 <= m <= n,
            0 < d,
    ;
}

/// A part `b` of a whole `c` scales any `a` down: `a * b / c <= a`.
pub proof fn lemma_mul_div_part(a: int, b: int, c: int)
    requires
        0 <= a,
        0 <= b <= c,
        0 < c,
    ensures
        0 <= mul_div_floor(a, b, c) <= a,
{
    assert(0 <= a * b <= a * c) by (nonlinear_arith)
        requires
            0 <= a,
            0 <= b <= c,
    ;
    lemma_floor_monotone(a * b, a * c, c);
    assert((a * c) / c == a) by (nonlinear_arith)
        requires
            0 < c,
    ;
    lemma_floor_bounds(a * b, c);
}

/// Computes `a * b / c` without losing the high bits of the product.
pub fn mul_div(a: u64, b: u64, c: u128) -> (q: u128)
    requires
        c > 0,
    ensures
        q == mul_div_floor(a as int, b as int, c as int),
        q <= max_product(),
{
    proof {
        lemma_product_fits(a, b);
        lemma_floor_bounds(a * b, c as int);
    }
    let wide: u128 = (a as u128) * (b as u128);
    wide / c
}

} // verus!
