//! Exact Q32.32 fixed-point arithmetic helpers.
//!
//! A fixed-point value `v: i64` (or a wide intermediate `v: i128`) stands for
//! the rational `v / FP_ONE`. Division truncates toward zero, like Rust's
//! integer division, so negating the dividend negates the quotient exactly.

use vstd::arithmetic::div_mod::{
    lemma_div_by_multiple, lemma_div_is_ordered, lemma_div_nonincreasing, lemma_div_pos_is_pos,
};
use vstd::prelude::*;

verus! {

/// Integer division truncated toward zero (for a positive divisor).
pub open spec fn div_t(a: int, b: int) -> int {
    if a >= 0 {
        a / b
    } else {
        -((-a) / b)
    }
}

/// Clamping into the inclusive interval `[lo, hi]`.
pub open spec fn clamp_s(v: int, lo: int, hi: int) -> int {
    if v < lo {
        lo
    } else if v > hi {
        hi
    } else {
        v
    }
}

/// Truncating toward zero is an odd function of the dividend.
pub proof fn lemma_div_t_neg(a: int, b: int)
    requires
        1 <= b,
    ensures
        div_t(-a, b) == -div_t(a, b),
{
    if a == 0 {
        lemma_div_pos_is_pos(0, b);
        lemma_div_nonincreasing(0, b);
    }
}

/// The magnitude of a truncated quotient never exceeds the dividend's.
pub proof fn lemma_div_t_bound(a: int, b: int, bound: int)
    requires
        1 <= b,
        -bound <= a <= bound,
        0 <= bound,
    ensures
        -bound <= div_t(a, b) <= bound,
{
    if a >= 0 {
        lemma_div_pos_is_pos(a, b);
        lemma_div_nonincreasing(a, b);
    } else {
        lemma_div_pos_is_pos(-a, b);
        lemma_div_nonincreasing(-a, b);
    }
}

/// A dividend within `q * b` of zero has its truncated quotient within `q`.
pub proof fn lemma_div_t_quotient_bound(a: int, b: int, q: int)
    requires
        1 <= b,
        0 <= q,
        -(q * b) <= a <= q * b,
    ensures
        -q <= div_t(a, b) <= q,
{
    if a >= 0 {
        lemma_div_pos_is_pos(a, b);
        lemma_div_is_ordered(a, q * b, b);
        lemma_div_by_multiple(q, b);
    } else {
        lemma_div_pos_is_pos(-a, b);
        lemma_div_is_ordered(-a, q * b, b);
        lemma_div_by_multiple(q, b);
    }
}

/// A product of bounded factors is bounded by the product of the bounds.
pub proof fn lemma_mul_bound(x: int, y: int, xb: int, yb: int)
    by (nonlinear_arith)
    requires
        -xb <= x <= xb,
        -yb <= y <= yb,
        0 <= xb,
        0 <= yb,
    ensures
        -(xb * yb) <= x * y <= xb * yb,
{
}

/// Integer division of `i128` values, truncated toward zero.
pub fn div_trunc(a: i128, b: i128) -> (r: i128)
    requires
        1 <= b,
        i128::MIN < a,
    ensures
        r == div_t(a as int, b as int),
{
    if a >= 0 {
        let q: u128 = (a as u128) / (b as u128);
        proof {
            lemma_div_pos_is_pos(a as int, b as int);
            lemma_div_nonincreasing(a as int, b as int);
        }
        q as i128
    } else {
        let q: u128 = ((-a) as u128) / (b as u128);
        proof {
            lemma_div_pos_is_pos(-(a as int), b as int);
            lemma_div_nonincreasing(-(a as int), b as int);
        }
        -(q as i128)
    }
}

/// Clamping of a wide intermediate back into an `i64` interval.
pub fn clamp_i128(v: i128, lo: i64, hi: i64) -> (r: i64)
    requires
        lo <= hi,
    ensures
        r == clamp_s(v as int, lo as int, hi as int),
{
    if v < lo as i128 {
        lo
    } else if v > hi as i128 {
        hi
    } else {
        v as i64
    }
}

} // verus!
