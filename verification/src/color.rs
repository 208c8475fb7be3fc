//! The color mapper: a deterministic, pure mapping from an iteration count
//! and a cap to an RGBA color.
//!
//! A count equal to the cap (presumed inside the set) maps to opaque black.
//! Otherwise, with `t = iterations / max_iter` in `[0, 1)`, the channels are
//! the warm polynomial palette
//! `r = 9(1-t)t^3 * 255`, `g = 15(1-t)^2 t^2 * 255`, `b = 8.5(1-t)^3 t * 255`,
//! each truncated to a byte. Over the integers this is exact:
//! `r = 2295 (m-i) i^3 / m^4`, `g = 3825 (m-i)^2 i^2 / m^4`,
//! `b = 4335 (m-i)^3 i / (2 m^4)`, rounded toward zero.

use crate::defs::ITER_LIMIT;
use vstd::arithmetic::div_mod::{lemma_div_pos_is_pos, lemma_multiply_divide_lt};
use vstd::prelude::*;

verus! {

/// Red channel below the cap: `2295 (m-i) i^3 / m^4`, in `[0, 255]`.
pub open spec fn color_r(i: int, m: int) -> int {
    (2295 * (m - i) * i * i * i) / (m * m * m * m)
}

/// Green channel below the cap: `3825 (m-i)^2 i^2 / m^4`, in `[0, 255]`.
pub open spec fn color_g(i: int, m: int) -> int {
    (3825 * (m - i) * (m - i) * i * i) / (m * m * m * m)
}

/// Blue channel below the cap: `4335 (m-i)^3 i / (2 m^4)`, in `[0, 255]`.
pub open spec fn color_b(i: int, m: int) -> int {
    (4335 * (m - i) * (m - i) * (m - i) * i) / (2 * (m * m * m * m))
}

/// The full mapping: the cap itself is opaque black, anything below is the
/// warm polynomial palette, always with alpha 255.
pub open spec fn color_spec(i: int, m: int) -> (int, int, int, int) {
    if i == m {
        (0, 0, 0, 255)
    } else {
        (color_r(i, m), color_g(i, m), color_b(i, m), 255)
    }
}

/// The red numerator stays below 256 times the denominator: with `a = m - i`,
/// `27 m^4 - 256 a i^3` is the sum of squares
/// `(3a - i)^2 (3a^2 + 14 a i + 27 i^2)`, hence nonnegative.
proof fn lemma_red_num_bound(i: int, m: int)
    requires
        0 <= i < m,
    ensures
        0 <= 2295 * (m - i) * i * i * i < 256 * (m * m * m * m),
{
    let a = m - i;
    assert(27 * (m * m * m * m) - 256 * (((a * i) * i) * i) == ((3 * a - i) * (3 * a - i)) * ((3
        * (a * a) + 14 * (a * i)) + 27 * (i * i))) by (nonlinear_arith)
        requires
            a == m - i,
    ;
    assert(0 <= ((3 * a - i) * (3 * a - i)) * ((3 * (a * a) + 14 * (a * i)) + 27 * (i * i)))
        by (nonlinear_arith)
        requires
            0 <= a,
            0 <= i,
    ;
    assert(0 <= 2295 * (m - i) * i * i * i < 256 * (m * m * m * m)) by (nonlinear_arith)
        requires
            256 * (((a * i) * i) * i) <= 27 * (m * m * m * m),
            a == m - i,
            1 <= a,
            0 <= i,
            1 <= m,
    ;
}

/// The green numerator stays below 256 times the denominator: from
/// `4 a i <= m^2` (that is, `(a - i)^2 >= 0` with `a + i = m`).
proof fn lemma_green_num_bound(i: int, m: int)
    requires
        0 <= i < m,
    ensures
        0 <= 3825 * (m - i) * (m - i) * i * i < 256 * (m * m * m * m),
{
    let a = m - i;
    assert(0 <= 4 * (a * i) <= m * m) by (nonlinear_arith)
        requires
            a == m - i,
            0 <= i,
            0 <= a,
    ;
    assert(16 * ((a * i) * (a * i)) <= (m * m) * (m * m)) by (nonlinear_arith)
        requires
            0 <= 4 * (a * i) <= m * m,
    ;
    assert(0 <= 3825 * (m - i) * (m - i) * i * i < 256 * (m * m * m * m)) by (nonlinear_arith)
        requires
            16 * ((a * i) * (a * i)) <= (m * m) * (m * m),
            a == m - i,
            1 <= a,
            0 <= i,
            1 <= m,
    ;
}

/// The blue numerator stays below 256 times the denominator `2 m^4`: with
/// `a = m - i`, `27 m^4 - 256 a^3 i` is the sum of squares
/// `(a - 3i)^2 (27 a^2 + 14 a i + 3 i^2)`, hence nonnegative.
proof fn lemma_blue_num_bound(i: int, m: int)
    requires
        0 <= i < m,
    ensures
        0 <= 4335 * (m - i) * (m - i) * (m - i) * i < 256 * (2 * (m * m * m * m)),
{
    let a = m - i;
    assert(27 * (m * m * m * m) - 256 * (((a * a) * a) * i) == ((a - 3 * i) * (a - 3 * i)) * ((27
        * (a * a) + 14 * (a * i)) + 3 * (i * i))) by (nonlinear_arith)
        requires
            a == m - i,
    ;
    assert(0 <= ((a - 3 * i) * (a - 3 * i)) * ((27 * (a * a) + 14 * (a * i)) + 3 * (i * i)))
        by (nonlinear_arith)
        requires
            0 <= a,
            0 <= i,
    ;
    assert(0 <= 4335 * (m - i) * (m - i) * (m - i) * i < 256 * (2 * (m * m * m * m)))
        by (nonlinear_arith)
        requires
            256 * (((a * a) * a) * i) <= 27 * (m * m * m * m),
            a == m - i,
            1 <= a,
            0 <= i,
            1 <= m,
    ;
}

/// Law: every channel of the mapped color lies in `[0, 255]`, and alpha is
/// always 255.
pub proof fn lemma_color_in_range(i: int, m: int)
    requires
        0 <= i <= m,
        1 <= m,
    ensures
        0 <= color_spec(i, m).0 <= 255,
        0 <= color_spec(i, m).1 <= 255,
        0 <= color_spec(i, m).2 <= 255,
        color_spec(i, m).3 == 255,
{
    if i < m {
        let m4 = m * m * m * m;
        assert(1 <= m * m * m * m) by (nonlinear_arith)
            requires
                1 <= m,
        ;
        lemma_red_num_bound(i, m);
        lemma_green_num_bound(i, m);
        lemma_blue_num_bound(i, m);
        lemma_div_pos_is_pos(2295 * (m - i) * i * i * i, m4);
        lemma_div_pos_is_pos(3825 * (m - i) * (m - i) * i * i, m4);
        lemma_div_pos_is_pos(4335 * (m - i) * (m - i) * (m - i) * i, 2 * m4);
        lemma_multiply_divide_lt(2295 * (m - i) * i * i * i, m4, 256);
        lemma_multiply_divide_lt(3825 * (m - i) * (m - i) * i * i, m4, 256);
        lemma_multiply_divide_lt(4335 * (m - i) * (m - i) * (m - i) * i, 2 * m4, 256);
    }
}

/// Law: the cap itself (presumed inside the set) always maps to opaque black.
pub proof fn lemma_color_inside_black(m: int)
    ensures
        color_spec(m, m) == (0int, 0int, 0int, 255int),
{
}

/// Law: a count of zero also maps to opaque black — every polynomial term
/// vanishes at `t = 0`.
pub proof fn lemma_color_zero_black(m: int)
    requires
        1 <= m,
    ensures
        color_spec(0, m) == (0int, 0int, 0int, 255int),
{
    let m4 = m * m * m * m;
    assert(1 <= m * m * m * m) by (nonlinear_arith)
        requires
            1 <= m,
    ;
    vstd::arithmetic::div_mod::lemma_div_basics_1(m4);
    vstd::arithmetic::div_mod::lemma_div_basics_1(2 * m4);
}

/// Map an iteration count to an RGBA color.
pub fn color(iterations: u32, max_iter: u32) -> (c: (u8, u8, u8, u8))
    requires
        iterations <= max_iter,
        1 <= max_iter <= ITER_LIMIT,
    ensures
        c.0 == color_spec(iterations as int, max_iter as int).0,
        c.1 == color_spec(iterations as int, max_iter as int).1,
        c.2 == color_spec(iterations as int, max_iter as int).2,
        c.3 == 255,
{
    if iterations == max_iter {
        return (0, 0, 0, 255);
    }
    let m: u128 = max_iter as u128;
    let i: u128 = iterations as u128;
    let a: u128 = m - i;
    proof {
        assert(m * m <= 1000000000000 && (m * m) * m <= 1000000000000000000 && ((m * m) * m) * m
            <= 1000000000000000000000000) by (nonlinear_arith)
            requires
                0 < m <= 1000000,
        ;
        assert(2295 * a <= 2295000000 && (2295 * a) * i <= 2295000000000000 && ((2295 * a) * i) * i
            <= 2295000000000000000000 && (((2295 * a) * i) * i) * i
            <= 2295000000000000000000000000) by (nonlinear_arith)
            requires
                0 <= a <= 1000000,
                0 <= i <= 1000000,
        ;
        assert(3825 * a <= 3825000000 && (3825 * a) * a <= 3825000000000000 && ((3825 * a) * a) * i
            <= 3825000000000000000000 && (((3825 * a) * a) * i) * i
            <= 3825000000000000000000000000) by (nonlinear_arith)
            requires
                0 <= a <= 1000000,
                0 <= i <= 1000000,
        ;
        assert(4335 * a <= 4335000000 && (4335 * a) * a <= 4335000000000000 && ((4335 * a) * a) * a
            <= 4335000000000000000000 && (((4335 * a) * a) * a) * i
            <= 4335000000000000000000000000) by (nonlinear_arith)
            requires
                0 <= a <= 1000000,
                0 <= i <= 1000000,
        ;
        assert(1 <= m * m * m * m) by (nonlinear_arith)
            requires
                1 <= m,
        ;
        lemma_red_num_bound(iterations as int, max_iter as int);
        lemma_green_num_bound(iterations as int, max_iter as int);
        lemma_blue_num_bound(iterations as int, max_iter as int);
    }
    let m4: u128 = m * m * m * m;
    let red_num: u128 = 2295 * a * i * i * i;
    let green_num: u128 = 3825 * a * a * i * i;
    let blue_num: u128 = 4335 * a * a * a * i;
    proof {
        lemma_div_pos_is_pos(red_num as int, m4 as int);
        lemma_div_pos_is_pos(green_num as int, m4 as int);
        lemma_div_pos_is_pos(blue_num as int, 2 * m4 as int);
        lemma_multiply_divide_lt(red_num as int, m4 as int, 256);
        lemma_multiply_divide_lt(green_num as int, m4 as int, 256);
        lemma_multiply_divide_lt(blue_num as int, 2 * m4 as int, 256);
    }
    let red = (red_num / m4) as u8;
    let green = (green_num / m4) as u8;
    let blue = (blue_num / (2 * m4)) as u8;
    (red, green, blue, 255)
}

} // verus!
