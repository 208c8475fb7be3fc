//! The camera: zoom scale, world-space center, window size and pointer state,
//! together with the screen / normalized / world coordinate transforms.
//!
//! Coordinate spaces: *screen* (pixels, origin top-left, y down), *normalized*
//! (each axis in `[-0.5, 0.5]`, origin at the viewport center) and *world*
//! (the complex plane, scaled by `scale` and aspect-corrected). All values are
//! Q32.32 fixed point.

use crate::defs::{
    CENTER_LIMIT, COORD_LIMIT, FP_HALF, FP_ONE, MAX_DIM, NORM_LIMIT, OFFSET_LIMIT, POINTER_LIMIT,
    SCALE_MAX, SCALE_MIN, START_SCALE, WORLD_LIMIT,
};
use crate::fixed::{
    clamp_i128, clamp_s, div_t, div_trunc, lemma_div_t_bound, lemma_div_t_neg, lemma_mul_bound,
};
use vstd::prelude::*;

verus! {

/// Screen coordinate to normalized coordinate: `p / dim - 0.5`, where `p` is
/// a fixed-point pixel coordinate and `dim` a window dimension in pixels.
pub open spec fn normalized_coord(p: int, dim: int) -> int {
    div_t(p, dim) - FP_HALF
}

/// Normalized x to an aspect-corrected world-space x offset:
/// `nx * scale * w / h`.
pub open spec fn local_offset_x(nx: int, scale: int, w: int, h: int) -> int {
    div_t(div_t(nx * scale, FP_ONE as int) * w, h)
}

/// Normalized y to a world-space y offset: `ny * scale`.
pub open spec fn local_offset_y(ny: int, scale: int) -> int {
    div_t(ny * scale, FP_ONE as int)
}

/// A screen coordinate in fixed-point pixels, taken to normalized
/// coordinates.
fn normalized_point(p: i64, dim: u32) -> (r: i64)
    requires
        1 <= dim,
        -POINTER_LIMIT <= p <= POINTER_LIMIT,
    ensures
        r == normalized_coord(p as int, dim as int),
        -NORM_LIMIT <= r <= NORM_LIMIT,
{
    proof {
        lemma_div_t_bound(p as int, dim as int, POINTER_LIMIT as int);
    }
    let n = div_trunc(p as i128, dim as i128);
    (n - FP_HALF as i128) as i64
}

/// Negating a normalized coordinate negates the world-space offset exactly:
/// every step of the transform truncates toward zero.
pub proof fn lemma_local_offset_neg(n: int, scale: int, w: int, h: int)
    requires
        1 <= h,
    ensures
        local_offset_x(-n, scale, w, h) == -local_offset_x(n, scale, w, h),
        local_offset_y(-n, scale) == -local_offset_y(n, scale),
{
    assert((-n) * scale == -(n * scale)) by (nonlinear_arith);
    lemma_div_t_neg(n * scale, FP_ONE as int);
    let t = div_t(n * scale, FP_ONE as int);
    assert((-t) * w == -(t * w)) by (nonlinear_arith);
    lemma_div_t_neg(t * w, h);
}

#[derive(Clone, Copy, Debug)]
pub struct Camera {
    /// The zoom level of the camera: the world-space half-height of the
    /// viewport, in fixed point. Always positive.
    pub scale: i64,
    /// The size of the window, in pixels.
    pub size: (u32, u32),
    /// The world coordinate mapped to the viewport's screen center.
    pub world_position: (i64, i64),
    /// The last known screen-space pointer location, in fixed-point pixels.
    pub mouse_position: (i64, i64),
    /// Whether drag-panning is active.
    pub mouse_pressed: bool,
}

impl Camera {
    /// Well-formedness: the scale is positive and every field is within the
    /// range the transforms are proved exact on.
    pub open spec fn wf(self) -> bool {
        &&& SCALE_MIN <= self.scale <= SCALE_MAX
        &&& self.size.0 <= MAX_DIM
        &&& self.size.1 <= MAX_DIM
        &&& -CENTER_LIMIT <= self.world_position.0 <= CENTER_LIMIT
        &&& -CENTER_LIMIT <= self.world_position.1 <= CENTER_LIMIT
        &&& -POINTER_LIMIT <= self.mouse_position.0 <= POINTER_LIMIT
        &&& -POINTER_LIMIT <= self.mouse_position.1 <= POINTER_LIMIT
    }

    /// World-space x offset from the center to the point under the pointer.
    pub open spec fn mouse_offset_x(self) -> int {
        local_offset_x(
            normalized_coord(self.mouse_position.0 as int, self.size.0 as int),
            self.scale as int,
            self.size.0 as int,
            self.size.1 as int,
        )
    }

    /// World-space y offset from the center to the point under the pointer.
    pub open spec fn mouse_offset_y(self) -> int {
        local_offset_y(
            normalized_coord(self.mouse_position.1 as int, self.size.1 as int),
            self.scale as int,
        )
    }

    /// World x coordinate of the point under the pointer.
    pub open spec fn world_x(self) -> int {
        self.world_position.0 + self.mouse_offset_x()
    }

    /// World y coordinate of the point under the pointer.
    pub open spec fn world_y(self) -> int {
        self.world_position.1 + self.mouse_offset_y()
    }
}

/// The world x coordinate of the screen point `p` (fixed-point pixels),
/// clamped into the range the evaluator accepts.
pub open spec fn world_at_x(cam: Camera, p: int) -> int {
    clamp_s(
        cam.world_position.0 + local_offset_x(
            normalized_coord(p, cam.size.0 as int),
            cam.scale as int,
            cam.size.0 as int,
            cam.size.1 as int,
        ),
        -COORD_LIMIT as int,
        COORD_LIMIT as int,
    )
}

/// The world y coordinate of the screen point `p` (fixed-point pixels),
/// clamped into the range the evaluator accepts.
pub open spec fn world_at_y(cam: Camera, p: int) -> int {
    clamp_s(
        cam.world_position.1 + local_offset_y(
            normalized_coord(p, cam.size.1 as int),
            cam.scale as int,
        ),
        -COORD_LIMIT as int,
        COORD_LIMIT as int,
    )
}

/// The scale after a zoom by `factor`: multiplied and clamped into range.
pub open spec fn zoom_scale(cam: Camera, factor: int) -> int {
    clamp_s(div_t(cam.scale * factor, FP_ONE as int), SCALE_MIN as int, SCALE_MAX as int)
}

/// The camera mid-zoom: rescaled, center not yet shifted.
pub open spec fn zoom_rescaled(cam: Camera, factor: int) -> Camera {
    Camera { scale: zoom_scale(cam, factor) as i64, ..cam }
}

/// The unclamped world x center after a zoom by `factor`: shifted by the
/// difference between the pointer's world offset before and after rescaling,
/// so that the world point under the pointer stays put.
pub open spec fn zoom_center_x(cam: Camera, factor: int) -> int {
    cam.world_position.0 + cam.mouse_offset_x() - zoom_rescaled(cam, factor).mouse_offset_x()
}

/// The unclamped world y center after a zoom by `factor`.
pub open spec fn zoom_center_y(cam: Camera, factor: int) -> int {
    cam.world_position.1 + cam.mouse_offset_y() - zoom_rescaled(cam, factor).mouse_offset_y()
}

/// What `zoom` does: a no-op on a degenerate window; otherwise the scale is
/// multiplied by `factor` and the center shifts to anchor the pointer.
pub open spec fn zoom_spec(cam: Camera, factor: int) -> Camera {
    if cam.size.0 == 0 || cam.size.1 == 0 {
        cam
    } else {
        Camera {
            world_position: (
                clamp_s(zoom_center_x(cam, factor), -CENTER_LIMIT as int, CENTER_LIMIT as int)
                    as i64,
                clamp_s(zoom_center_y(cam, factor), -CENTER_LIMIT as int, CENTER_LIMIT as int)
                    as i64,
            ),
            ..zoom_rescaled(cam, factor)
        }
    }
}

/// World-space x offset of a screen-space pan delta `dx`.
pub open spec fn pan_offset_x(cam: Camera, dx: int) -> int {
    local_offset_x(div_t(dx, cam.size.0 as int), cam.scale as int, cam.size.0 as int, cam.size.1 as int)
}

/// World-space y offset of a screen-space pan delta `dy`.
pub open spec fn pan_offset_y(cam: Camera, dy: int) -> int {
    local_offset_y(div_t(dy, cam.size.1 as int), cam.scale as int)
}

/// What `pan` does: a no-op unless the pointer is pressed and the window is
/// non-degenerate; otherwise the center moves against the screen delta, so
/// the content follows the pointer.
pub open spec fn pan_spec(cam: Camera, dx: int, dy: int) -> Camera {
    if !cam.mouse_pressed || cam.size.0 == 0 || cam.size.1 == 0 {
        cam
    } else {
        Camera {
            world_position: (
                clamp_s(
                    cam.world_position.0 - pan_offset_x(cam, dx),
                    -CENTER_LIMIT as int,
                    CENTER_LIMIT as int,
                ) as i64,
                clamp_s(
                    cam.world_position.1 - pan_offset_y(cam, dy),
                    -CENTER_LIMIT as int,
                    CENTER_LIMIT as int,
                ) as i64,
            ),
            ..cam
        }
    }
}

impl Camera {
    /// Create a new camera with the given window size, looking at the origin
    /// with the starting scale.
    pub fn new(size: (u32, u32)) -> (cam: Camera)
        requires
            size.0 <= MAX_DIM,
            size.1 <= MAX_DIM,
        ensures
            cam.scale == START_SCALE,
            cam.size == size,
            cam.world_position == (0i64, 0i64),
            cam.mouse_position == (0i64, 0i64),
            cam.mouse_pressed == false,
            cam.wf(),
    {
        Camera {
            scale: START_SCALE,
            size,
            world_position: (0, 0),
            mouse_position: (0, 0),
            mouse_pressed: false,
        }
    }

    /// Convert a position in normalized coordinates to a world-space offset.
    pub fn position_to_local(&self, position: (i64, i64)) -> (r: (i128, i128))
        requires
            self.wf(),
            1 <= self.size.1,
            -NORM_LIMIT <= position.0 <= NORM_LIMIT,
            -NORM_LIMIT <= position.1 <= NORM_LIMIT,
        ensures
            r.0 == local_offset_x(
                position.0 as int,
                self.scale as int,
                self.size.0 as int,
                self.size.1 as int,
            ),
            r.1 == local_offset_y(position.1 as int, self.scale as int),
            -OFFSET_LIMIT <= r.0 <= OFFSET_LIMIT,
            -OFFSET_LIMIT <= r.1 <= OFFSET_LIMIT,
    {
        proof {
            lemma_mul_bound(
                position.0 as int,
                self.scale as int,
                NORM_LIMIT as int,
                SCALE_MAX as int,
            );
            lemma_mul_bound(
                position.1 as int,
                self.scale as int,
                NORM_LIMIT as int,
                SCALE_MAX as int,
            );
        }
        let wide_x: i128 = (position.0 as i128) * (self.scale as i128);
        let wide_y: i128 = (position.1 as i128) * (self.scale as i128);
        proof {
            lemma_div_t_bound(wide_x as int, FP_ONE as int, NORM_LIMIT as int * SCALE_MAX as int);
            lemma_div_t_bound(wide_y as int, FP_ONE as int, NORM_LIMIT as int * SCALE_MAX as int);
        }
        let scaled_x = div_trunc(wide_x, FP_ONE as i128);
        let y = div_trunc(wide_y, FP_ONE as i128);
        proof {
            lemma_mul_bound(
                scaled_x as int,
                self.size.0 as int,
                NORM_LIMIT as int * SCALE_MAX as int,
                MAX_DIM as int,
            );
        }
        let stretched = scaled_x * (self.size.0 as i128);
        proof {
            lemma_div_t_bound(
                stretched as int,
                self.size.1 as int,
                NORM_LIMIT as int * SCALE_MAX as int * MAX_DIM as int,
            );
        }
        let x = div_trunc(stretched, self.size.1 as i128);
        (x, y)
    }

    /// The pointer position in normalized coordinates.
    fn normalized_mouse(&self) -> (r: (i64, i64))
        requires
            self.wf(),
            1 <= self.size.0,
            1 <= self.size.1,
        ensures
            r.0 == normalized_coord(self.mouse_position.0 as int, self.size.0 as int),
            r.1 == normalized_coord(self.mouse_position.1 as int, self.size.1 as int),
            -NORM_LIMIT <= r.0 <= NORM_LIMIT,
            -NORM_LIMIT <= r.1 <= NORM_LIMIT,
    {
        (
            normalized_point(self.mouse_position.0, self.size.0),
            normalized_point(self.mouse_position.1, self.size.1),
        )
    }

    /// The world coordinate of the point under the pointer.
    pub fn mouse_world_position(&self) -> (r: (i128, i128))
        requires
            self.wf(),
            1 <= self.size.0,
            1 <= self.size.1,
        ensures
            r.0 == self.world_x(),
            r.1 == self.world_y(),
            -WORLD_LIMIT <= r.0 <= WORLD_LIMIT,
            -WORLD_LIMIT <= r.1 <= WORLD_LIMIT,
    {
        let n = self.normalized_mouse();
        let off = self.position_to_local(n);
        ((self.world_position.0 as i128) + off.0, (self.world_position.1 as i128) + off.1)
    }

    /// The world coordinate of an arbitrary screen point, clamped into the
    /// range the evaluator accepts. Far-off screen points clamp to a world
    /// point that is still far outside the escape radius, so the clamp never
    /// changes a pixel's color.
    pub fn world_at(&self, position: (i64, i64)) -> (r: (i64, i64))
        requires
            self.wf(),
            1 <= self.size.0,
            1 <= self.size.1,
            -POINTER_LIMIT <= position.0 <= POINTER_LIMIT,
            -POINTER_LIMIT <= position.1 <= POINTER_LIMIT,
        ensures
            r.0 == world_at_x(*self, position.0 as int),
            r.1 == world_at_y(*self, position.1 as int),
            -COORD_LIMIT <= r.0 <= COORD_LIMIT,
            -COORD_LIMIT <= r.1 <= COORD_LIMIT,
    {
        let off = self.position_to_local((
            normalized_point(position.0, self.size.0),
            normalized_point(position.1, self.size.1),
        ));
        (
            clamp_i128((self.world_position.0 as i128) + off.0, -COORD_LIMIT, COORD_LIMIT),
            clamp_i128((self.world_position.1 as i128) + off.1, -COORD_LIMIT, COORD_LIMIT),
        )
    }

    /// Zoom by a positive fixed-point factor, anchored at the pointer: the
    /// scale is multiplied by `factor` and the center shifts so that the
    /// world point under the pointer stays visually fixed. Callers derive the
    /// factor from a scroll delta (a factor below `FP_ONE` zooms in). A
    /// degenerate window skips the whole update.
    pub fn zoom(&mut self, factor: i64)
        requires
            old(self).wf(),
            1 <= factor,
        ensures
            *final(self) == zoom_spec(*old(self), factor as int),
            final(self).wf(),
    {
        if self.size.0 == 0 || self.size.1 == 0 {
            return;
        }
        let before = self.mouse_world_position();
        proof {
            lemma_mul_bound(self.scale as int, factor as int, SCALE_MAX as int, i64::MAX as int);
        }
        let wide: i128 = (self.scale as i128) * (factor as i128);
        let scaled = div_trunc(wide, FP_ONE as i128);
        self.scale = clamp_i128(scaled, SCALE_MIN, SCALE_MAX);
        let after = self.mouse_world_position();
        self.world_position.0 = clamp_i128(
            (self.world_position.0 as i128) + (before.0 - after.0),
            -CENTER_LIMIT,
            CENTER_LIMIT,
        );
        self.world_position.1 = clamp_i128(
            (self.world_position.1 as i128) + (before.1 - after.1),
            -CENTER_LIMIT,
            CENTER_LIMIT,
        );
    }

    /// Pan by a screen-space delta, in fixed-point pixels: the center moves
    /// against the delta so the content follows the pointer. A no-op unless
    /// the pointer is pressed; a degenerate window skips the whole update.
    pub fn pan(&mut self, delta: (i64, i64))
        requires
            old(self).wf(),
            -NORM_LIMIT <= delta.0 <= NORM_LIMIT,
            -NORM_LIMIT <= delta.1 <= NORM_LIMIT,
        ensures
            *final(self) == pan_spec(*old(self), delta.0 as int, delta.1 as int),
            final(self).wf(),
    {
        if !self.mouse_pressed || self.size.0 == 0 || self.size.1 == 0 {
            return;
        }
        proof {
            lemma_div_t_bound(delta.0 as int, self.size.0 as int, NORM_LIMIT as int);
            lemma_div_t_bound(delta.1 as int, self.size.1 as int, NORM_LIMIT as int);
        }
        let ndx = div_trunc(delta.0 as i128, self.size.0 as i128);
        let ndy = div_trunc(delta.1 as i128, self.size.1 as i128);
        let off = self.position_to_local((ndx as i64, ndy as i64));
        self.world_position.0 = clamp_i128(
            (self.world_position.0 as i128) - off.0,
            -CENTER_LIMIT,
            CENTER_LIMIT,
        );
        self.world_position.1 = clamp_i128(
            (self.world_position.1 as i128) - off.1,
            -CENTER_LIMIT,
            CENTER_LIMIT,
        );
    }

    /// Record the pointer position, in fixed-point pixels.
    pub fn update_mouse_position(&mut self, position: (i64, i64))
        requires
            old(self).wf(),
            -POINTER_LIMIT <= position.0 <= POINTER_LIMIT,
            -POINTER_LIMIT <= position.1 <= POINTER_LIMIT,
        ensures
            final(self).mouse_position == position,
            final(self).scale == old(self).scale,
            final(self).size == old(self).size,
            final(self).world_position == old(self).world_position,
            final(self).mouse_pressed == old(self).mouse_pressed,
            final(self).wf(),
    {
        self.mouse_position = position;
    }

    /// Record whether drag-panning is active; does not move the camera.
    pub fn set_pointer_pressed(&mut self, pressed: bool)
        requires
            old(self).wf(),
        ensures
            final(self).mouse_pressed == pressed,
            final(self).scale == old(self).scale,
            final(self).size == old(self).size,
            final(self).world_position == old(self).world_position,
            final(self).mouse_position == old(self).mouse_position,
            final(self).wf(),
    {
        self.mouse_pressed = pressed;
    }

    /// Law: zooming with the unit factor is exactly a no-op — neither the
    /// scale nor the world center (nor any other field) changes.
    pub proof fn lemma_zoom_unit_factor(self)
        requires
            self.wf(),
        ensures
            zoom_spec(self, FP_ONE as int) == self,
    {
        if self.size.0 != 0 && self.size.1 != 0 {
            vstd::arithmetic::mul::lemma_mul_strictly_positive(self.scale as int, FP_ONE as int);
            vstd::arithmetic::div_mod::lemma_div_by_multiple(self.scale as int, FP_ONE as int);
            assert(zoom_scale(self, FP_ONE as int) == self.scale);
            assert(zoom_rescaled(self, FP_ONE as int) == self);
        }
    }

    /// Law: zoom is anchored at the pointer. Whenever the window is not
    /// degenerate and the shifted center needs no clamping, the world
    /// coordinate under the (unmoved) pointer is exactly the same before and
    /// after the zoom, whatever the factor.
    pub proof fn lemma_zoom_anchored(self, factor: int)
        requires
            self.wf(),
            1 <= factor,
            1 <= self.size.0,
            1 <= self.size.1,
            -CENTER_LIMIT <= zoom_center_x(self, factor) <= CENTER_LIMIT,
            -CENTER_LIMIT <= zoom_center_y(self, factor) <= CENTER_LIMIT,
        ensures
            zoom_spec(self, factor).world_x() == self.world_x(),
            zoom_spec(self, factor).world_y() == self.world_y(),
    {
    }

    /// Law: a pan while the pointer is not pressed changes nothing, whatever
    /// the delta.
    pub proof fn lemma_pan_inert(self, dx: int, dy: int)
        requires
            !self.mouse_pressed,
        ensures
            pan_spec(self, dx, dy) == self,
    {
    }

    /// Law: panning by a delta and then by its negation restores the world
    /// center exactly, provided the drag is active throughout, the window is
    /// not degenerate, and the first pan needs no clamping.
    pub proof fn lemma_pan_reversible(self, dx: int, dy: int)
        requires
            self.wf(),
            self.mouse_pressed,
            1 <= self.size.0,
            1 <= self.size.1,
            -CENTER_LIMIT <= self.world_position.0 - pan_offset_x(self, dx) <= CENTER_LIMIT,
            -CENTER_LIMIT <= self.world_position.1 - pan_offset_y(self, dy) <= CENTER_LIMIT,
        ensures
            pan_spec(pan_spec(self, dx, dy), -dx, -dy) == self,
    {
        let stepped = pan_spec(self, dx, dy);
        lemma_div_t_neg(dx, self.size.0 as int);
        lemma_div_t_neg(dy, self.size.1 as int);
        lemma_local_offset_neg(
            div_t(dx, self.size.0 as int),
            self.scale as int,
            self.size.0 as int,
            self.size.1 as int,
        );
        lemma_local_offset_neg(
            div_t(dy, self.size.1 as int),
            self.scale as int,
            self.size.0 as int,
            self.size.1 as int,
        );
        assert(pan_offset_x(stepped, -dx) == -pan_offset_x(self, dx));
        assert(pan_offset_y(stepped, -dy) == -pan_offset_y(self, dy));
    }

    /// Update the window size; the zoom and pan state survives a resize.
    pub fn resize(&mut self, size: (u32, u32))
        requires
            old(self).wf(),
            size.0 <= MAX_DIM,
            size.1 <= MAX_DIM,
        ensures
            final(self).size == size,
            final(self).scale == old(self).scale,
            final(self).world_position == old(self).world_position,
            final(self).mouse_position == old(self).mouse_position,
            final(self).mouse_pressed == old(self).mouse_pressed,
            final(self).wf(),
    {
        self.size = size;
    }
}

} // verus!
