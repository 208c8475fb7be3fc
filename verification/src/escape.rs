//! The escape-time evaluator: iterate `z <- z^2 + c` from `z = c` and count
//! how many steps stay within the escape radius 2, up to a cap.
//!
//! Coordinates are Q32.32 fixed point; the squared-magnitude test
//! `|z|^2 > 4` is exact (no truncation), while each step's products are
//! rescaled by one truncating division, mirroring the transform arithmetic.

use crate::defs::{COORD_LIMIT, FP_ONE};
use crate::fixed::{
    div_t, div_trunc, lemma_div_t_quotient_bound, lemma_mul_bound,
};
use vstd::arithmetic::div_mod::lemma_div_of0;
use vstd::prelude::*;

verus! {

/// Squared escape radius in fixed point: `4 * FP_ONE * FP_ONE`, i.e.
/// `|z|^2 > 4` in world units.
pub const ESCAPE_THRESHOLD: i128 = 73786976294838206464;

/// Bound on a `z` component during iteration, in fixed point (`2^47`):
/// a surviving `z` has `|z|^2 <= 4`, so the next step stays below
/// `4 + 2^14` world units.
pub const Z_LIMIT: i64 = 140737488355328;

/// Whether `z` lies outside the escape radius: `|z|^2 > 4`.
pub open spec fn escaped(zr: int, zi: int) -> bool {
    zr * zr + zi * zi > ESCAPE_THRESHOLD as int
}

/// Real part of one step: `zr^2 - zi^2 + cr`, rescaled.
pub open spec fn step_re(zr: int, zi: int, cr: int) -> int {
    div_t(zr * zr - zi * zi, FP_ONE as int) + cr
}

/// Imaginary part of one step: `2 * zr * zi + ci`, rescaled. Both parts of a
/// step read the same pre-step `z`.
pub open spec fn step_im(zr: int, zi: int, ci: int) -> int {
    div_t(2 * (zr * zi), FP_ONE as int) + ci
}

/// How many steps `z` survives inside the escape radius, starting from
/// `(zr, zi)`, before the fuel runs out: the escape check comes first, so a
/// point already outside counts zero steps.
pub open spec fn escape_steps(zr: int, zi: int, cr: int, ci: int, fuel: nat) -> nat
    decreases fuel,
{
    if fuel == 0 {
        0
    } else if escaped(zr, zi) {
        0
    } else {
        1 + escape_steps(step_re(zr, zi, cr), step_im(zr, zi, ci), cr, ci, (fuel - 1) as nat)
    }
}

/// The iteration count of the point `c`, seeded with `z = c`: in
/// `[0, max_iter]`, with `max_iter` itself meaning "did not escape".
pub open spec fn iterations_spec(cr: int, ci: int, max_iter: nat) -> nat {
    escape_steps(cr, ci, cr, ci, max_iter)
}

/// Count the escape-time iterations of the world point `(c_re, c_im)`.
pub fn iterations(c_re: i64, c_im: i64, max_iter: u32) -> (r: u32)
    requires
        -COORD_LIMIT <= c_re <= COORD_LIMIT,
        -COORD_LIMIT <= c_im <= COORD_LIMIT,
    ensures
        r == iterations_spec(c_re as int, c_im as int, max_iter as nat),
        r <= max_iter,
{
    let mut zr: i64 = c_re;
    let mut zi: i64 = c_im;
    let mut i: u32 = 0;
    while i < max_iter
        invariant
            i <= max_iter,
            -Z_LIMIT <= zr <= Z_LIMIT,
            -Z_LIMIT <= zi <= Z_LIMIT,
            -COORD_LIMIT <= c_re <= COORD_LIMIT,
            -COORD_LIMIT <= c_im <= COORD_LIMIT,
            iterations_spec(c_re as int, c_im as int, max_iter as nat) == i + escape_steps(
                zr as int,
                zi as int,
                c_re as int,
                c_im as int,
                (max_iter - i) as nat,
            ),
        decreases max_iter - i,
    {
        proof {
            lemma_mul_bound(zr as int, zr as int, Z_LIMIT as int, Z_LIMIT as int);
            lemma_mul_bound(zi as int, zi as int, Z_LIMIT as int, Z_LIMIT as int);
            lemma_mul_bound(zr as int, zi as int, Z_LIMIT as int, Z_LIMIT as int);
        }
        let zr2: i128 = (zr as i128) * (zr as i128);
        let zi2: i128 = (zi as i128) * (zi as i128);
        if zr2 + zi2 > ESCAPE_THRESHOLD {
            proof {
                assert(escape_steps(
                    zr as int,
                    zi as int,
                    c_re as int,
                    c_im as int,
                    (max_iter - i) as nat,
                ) == 0);
            }
            return i;
        }
        let cross: i128 = 2 * ((zr as i128) * (zi as i128));
        proof {
            assert(0 <= zr2 + zi2) by (nonlinear_arith)
                requires
                    zr2 == zr as int * zr as int,
                    zi2 == zi as int * zi as int,
            ;
            assert(-(zr2 + zi2) <= cross <= zr2 + zi2) by (nonlinear_arith)
                requires
                    zr2 == zr as int * zr as int,
                    zi2 == zi as int * zi as int,
                    cross == 2 * (zr as int * zi as int),
            ;
            assert(-(zr2 + zi2) <= zr2 - zi2 <= zr2 + zi2) by (nonlinear_arith)
                requires
                    zr2 == zr as int * zr as int,
                    zi2 == zi as int * zi as int,
            ;
            lemma_div_t_quotient_bound(
                (zr2 - zi2) as int,
                FP_ONE as int,
                4 * FP_ONE as int,
            );
            lemma_div_t_quotient_bound(cross as int, FP_ONE as int, 4 * FP_ONE as int);
        }
        let new_re = (div_trunc(zr2 - zi2, FP_ONE as i128) + (c_re as i128)) as i64;
        let new_im = (div_trunc(cross, FP_ONE as i128) + (c_im as i128)) as i64;
        proof {
            assert(escape_steps(
                zr as int,
                zi as int,
                c_re as int,
                c_im as int,
                (max_iter - i) as nat,
            ) == 1 + escape_steps(
                new_re as int,
                new_im as int,
                c_re as int,
                c_im as int,
                (max_iter - i - 1) as nat,
            ));
        }
        zr = new_re;
        zi = new_im;
        i = i + 1;
    }
    i
}

/// The origin survives any amount of fuel: `z` stays at zero forever.
proof fn lemma_origin_survives(fuel: nat)
    ensures
        escape_steps(0, 0, 0, 0, fuel) == fuel,
    decreases fuel,
{
    if fuel > 0 {
        lemma_div_of0(FP_ONE as int);
        assert(step_re(0, 0, 0) == 0);
        assert(step_im(0, 0, 0) == 0);
        lemma_origin_survives((fuel - 1) as nat);
    }
}

/// Law: the origin never escapes — its iteration count is the cap itself,
/// whatever the cap.
pub proof fn lemma_origin_never_escapes(max_iter: nat)
    ensures
        iterations_spec(0, 0, max_iter) == max_iter,
{
    lemma_origin_survives(max_iter);
}

/// Law: a point already outside the escape radius (such as `2 + 2i`, whose
/// squared magnitude is 8) escapes before the first step: the count is zero,
/// whatever the cap.
pub proof fn lemma_escaped_start(cr: int, ci: int, max_iter: nat)
    requires
        escaped(cr, ci),
    ensures
        iterations_spec(cr, ci, max_iter) == 0,
{
}

} // verus!
