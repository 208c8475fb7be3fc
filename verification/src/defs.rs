//! Shared constants and the render-parameter record.

use vstd::prelude::*;

verus! {

/// One whole unit in Q32.32 fixed point: `2^32`.
pub const FP_ONE: i64 = 4294967296;

/// Half a unit in Q32.32 fixed point: `2^31`.
pub const FP_HALF: i64 = 2147483648;

/// Default iteration cap for the escape-time evaluator.
pub const MAX_ITER: u32 = 1000;

/// Initial zoom scale: 4.0 world units, in fixed point.
pub const START_SCALE: i64 = 17179869184;

/// Largest accepted window dimension, in pixels.
pub const MAX_DIM: u32 = 16384;

/// Smallest zoom scale the camera reaches: `2^-32` world units.
pub const SCALE_MIN: i64 = 1;

/// Largest zoom scale the camera reaches: `2^14` world units, in fixed point.
pub const SCALE_MAX: i64 = 70368744177664;

/// Bound on the world-space center coordinates, in fixed point (`2^60`).
pub const CENTER_LIMIT: i64 = 1152921504606846976;

/// Bound on the pointer coordinates, in fixed point (`2^14` pixels).
pub const POINTER_LIMIT: i64 = 70368744177664;

/// Bound on a pan delta, in fixed point (`2^15` pixels).
pub const DELTA_LIMIT: i64 = 140737488355328;

/// Bound on an evaluator input coordinate, in fixed point (`2^14` world units).
pub const COORD_LIMIT: i64 = 70368744177664;

/// Largest iteration cap the evaluator and color mapper accept.
pub const ITER_LIMIT: u32 = 1000000;

/// Bound on a normalized coordinate handed to the local transform (`2^48`).
pub const NORM_LIMIT: i64 = 281474976710656;

/// Bound on a world-space offset produced by the local transform (`2^108`).
pub const OFFSET_LIMIT: i128 = 324518553658426726783156020576256;

/// Bound on a world coordinate under the pointer (`2^110`).
pub const WORLD_LIMIT: i128 = 1298074214633706907132624082305024;

/// The render parameters: a plain snapshot of the camera state and the
/// iteration cap, recomputed after every camera-affecting event and handed
/// to the evaluator. All fixed-point fields are Q32.32.
#[derive(Clone, Copy, Debug)]
pub struct Params {
    /// Iteration cap for the escape-time evaluator.
    pub max_iter: u32,
    /// The camera's zoom scale, in fixed point.
    pub scale: i64,
    /// The window size, in pixels.
    pub size: (u32, u32),
    /// The camera's world-space center, in fixed point.
    pub center: (i64, i64),
}

impl Params {
    /// A fresh snapshot with the default cap and starting scale.
    pub fn new() -> (p: Params)
        ensures
            p.max_iter == MAX_ITER,
            p.scale == START_SCALE,
            p.size == (0u32, 0u32),
            p.center == (0i64, 0i64),
    {
        Params { max_iter: MAX_ITER, scale: START_SCALE, size: (0, 0), center: (0, 0) }
    }

    /// Replace the iteration cap.
    pub fn set_max_iter(&mut self, max_iter: u32)
        ensures
            final(self).max_iter == max_iter,
            final(self).scale == old(self).scale,
            final(self).size == old(self).size,
            final(self).center == old(self).center,
    {
        self.max_iter = max_iter;
    }

    /// Replace the zoom scale.
    pub fn set_scale(&mut self, scale: i64)
        ensures
            final(self).scale == scale,
            final(self).max_iter == old(self).max_iter,
            final(self).size == old(self).size,
            final(self).center == old(self).center,
    {
        self.scale = scale;
    }

    /// Replace the window size.
    pub fn set_size(&mut self, size: (u32, u32))
        ensures
            final(self).size == size,
            final(self).max_iter == old(self).max_iter,
            final(self).scale == old(self).scale,
            final(self).center == old(self).center,
    {
        self.size = size;
    }

    /// Replace the world-space center.
    pub fn set_center(&mut self, center: (i64, i64))
        ensures
            final(self).center == center,
            final(self).max_iter == old(self).max_iter,
            final(self).scale == old(self).scale,
            final(self).size == old(self).size,
    {
        self.center = center;
    }
}

} // verus!
