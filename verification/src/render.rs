//! The pixel scan: for each pixel in row-major order, map it to a world
//! coordinate through the camera, run the escape-time evaluator and the
//! color mapper, and write four bytes (r, g, b, a).

use crate::camera::{world_at_x, world_at_y, Camera};
use crate::color::{color, color_spec};
use crate::defs::{FP_ONE, ITER_LIMIT};
use crate::escape::{iterations, iterations_spec};
use vstd::arithmetic::div_mod::lemma_fundamental_div_mod_converse;
use vstd::arithmetic::mul::{lemma_mul_is_commutative, lemma_mul_is_distributive_add_other_way};
use vstd::prelude::*;

verus! {

/// The world x coordinate sampled for pixel column `px`.
pub open spec fn pixel_world_x(cam: Camera, px: int) -> int {
    world_at_x(cam, px * FP_ONE)
}

/// The world y coordinate sampled for pixel row `py`.
pub open spec fn pixel_world_y(cam: Camera, py: int) -> int {
    world_at_y(cam, py * FP_ONE)
}

/// The RGBA color of the pixel in column `px` of row `py`.
pub open spec fn pixel_color(cam: Camera, max_iter: int, px: int, py: int) -> (int, int, int, int) {
    color_spec(
        iterations_spec(pixel_world_x(cam, px), pixel_world_y(cam, py), max_iter as nat) as int,
        max_iter,
    )
}

/// Byte `j` of the frame: pixels in row-major order, four bytes per pixel.
pub open spec fn pixel_byte(cam: Camera, max_iter: int, j: int) -> u8 {
    let k = j / 4;
    let px = k % (cam.size.0 as int);
    let py = k / (cam.size.0 as int);
    let c = pixel_color(cam, max_iter, px, py);
    if j % 4 == 0 {
        c.0 as u8
    } else if j % 4 == 1 {
        c.1 as u8
    } else if j % 4 == 2 {
        c.2 as u8
    } else {
        c.3 as u8
    }
}

/// The whole frame, as the sequence of its bytes.
pub open spec fn frame_spec(cam: Camera, max_iter: int) -> Seq<u8> {
    Seq::new((cam.size.0 * cam.size.1 * 4) as nat, |j: int| pixel_byte(cam, max_iter, j))
}

/// Render one frame of the fractal seen by the camera into an RGBA buffer.
pub fn render_frame(cam: &Camera, max_iter: u32) -> (buf: Vec<u8>)
    requires
        cam.wf(),
        1 <= cam.size.0,
        1 <= cam.size.1,
        1 <= max_iter <= ITER_LIMIT,
    ensures
        buf@ == frame_spec(*cam, max_iter as int),
        buf.len() == cam.size.0 * cam.size.1 * 4,
{
    let w = cam.size.0;
    let h = cam.size.1;
    let mut buf: Vec<u8> = Vec::new();
    let mut py: u32 = 0;
    while py < h
        invariant
            py <= h,
            w == cam.size.0,
            h == cam.size.1,
            cam.wf(),
            1 <= w,
            1 <= h,
            1 <= max_iter <= ITER_LIMIT,
            buf.len() == py * w * 4,
            forall|j: int| 0 <= j < buf.len() ==> buf@[j] == pixel_byte(*cam, max_iter as int, j),
        decreases h - py,
    {
        let mut px: u32 = 0;
        while px < w
            invariant
                px <= w,
                py < h,
                w == cam.size.0,
                h == cam.size.1,
                cam.wf(),
                1 <= w,
                1 <= h,
                1 <= max_iter <= ITER_LIMIT,
                buf.len() == (py * w + px) * 4,
                forall|j: int| 0 <= j < buf.len() ==> buf@[j] == pixel_byte(
                    *cam,
                    max_iter as int,
                    j,
                ),
            decreases w - px,
        {
            let point = cam.world_at(((px as i64) * FP_ONE, (py as i64) * FP_ONE));
            let count = iterations(point.0, point.1, max_iter);
            let rgba = color(count, max_iter);
            let ghost k = py as int * w as int + px as int;
            proof {
                lemma_fundamental_div_mod_converse(k, w as int, py as int, px as int);
                lemma_fundamental_div_mod_converse(4 * k, 4, k, 0);
                lemma_fundamental_div_mod_converse(4 * k + 1, 4, k, 1);
                lemma_fundamental_div_mod_converse(4 * k + 2, 4, k, 2);
                lemma_fundamental_div_mod_converse(4 * k + 3, 4, k, 3);
            }
            buf.push(rgba.0);
            buf.push(rgba.1);
            buf.push(rgba.2);
            buf.push(rgba.3);
            proof {
                assert(rgba.0 == pixel_color(*cam, max_iter as int, px as int, py as int).0);
                assert(buf@[4 * k] == pixel_byte(*cam, max_iter as int, 4 * k));
                assert(buf@[4 * k + 1] == pixel_byte(*cam, max_iter as int, 4 * k + 1));
                assert(buf@[4 * k + 2] == pixel_byte(*cam, max_iter as int, 4 * k + 2));
                assert(buf@[4 * k + 3] == pixel_byte(*cam, max_iter as int, 4 * k + 3));
            }
            px = px + 1;
        }
        proof {
            lemma_mul_is_distributive_add_other_way(w as int, py as int, 1);
        }
        py = py + 1;
    }
    proof {
        lemma_mul_is_commutative(h as int, w as int);
        assert(buf@ =~= frame_spec(*cam, max_iter as int));
    }
    buf
}

} // verus!
