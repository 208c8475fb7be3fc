use fractals::camera::Camera;
use fractals::color::color;
use fractals::defs::FP_ONE;
use fractals::escape::iterations;
use fractals::render::render_frame;

#[test]
fn evaluator_boundary() {
    // The origin never escapes; (2, 2) is already outside radius 2 at step 0.
    assert_eq!(iterations(0, 0, 1000), 1000);
    assert_eq!(iterations(2 * FP_ONE, 2 * FP_ONE, 1000), 0);
    assert_eq!(iterations(0, 0, 1), 1);
    assert_eq!(iterations(2 * FP_ONE, 2 * FP_ONE, 1), 0);
}

#[test]
fn evaluator_known_orbits() {
    // c = 1: the orbit is 1, 2, 5, ... and 5 exceeds the radius, so exactly
    // the two checks at z = 1 and z = 2 pass.
    assert_eq!(iterations(FP_ONE, 0, 100), 2);
    // c = -1: the orbit cycles -1, 0, -1, ... and never escapes.
    assert_eq!(iterations(-FP_ONE, 0, 50), 50);
    // c = -2: the orbit goes -2, 2, 2, ... sitting on the radius forever.
    assert_eq!(iterations(-2 * FP_ONE, 0, 30), 30);
}

#[test]
fn evaluator_zero_cap() {
    assert_eq!(iterations(0, 0, 0), 0);
}

#[test]
fn color_mapper_black_cases() {
    // The cap itself is opaque black, and so is a count of zero.
    assert_eq!(color(1000, 1000), (0, 0, 0, 255));
    assert_eq!(color(0, 1000), (0, 0, 0, 255));
    assert_eq!(color(7, 7), (0, 0, 0, 255));
}

#[test]
fn color_mapper_exact_values() {
    // i = 1, m = 2 (t = 1/2): r = 2295/16, g = 3825/16, b = 4335/32.
    assert_eq!(color(1, 2), (143, 239, 135, 255));
    // i = 1, m = 4 (t = 1/4): r = 6885/256, g = 34425/256, b = 117045/512.
    assert_eq!(color(1, 4), (26, 134, 228, 255));
}

#[test]
fn color_mapper_matches_float_palette() {
    // The integer palette is the exact value of the floating-point formula,
    // truncated; over a whole sweep the two must agree byte for byte.
    let m: u32 = 1000;
    for i in 0..m {
        let t = i as f64 / m as f64;
        let r = (9.0 * (1.0 - t) * t * t * t * 255.0) as u8;
        let g = (15.0 * (1.0 - t) * (1.0 - t) * t * t * 255.0) as u8;
        let b = (8.5 * (1.0 - t) * (1.0 - t) * (1.0 - t) * t * 255.0) as u8;
        assert_eq!(color(i, m), (r, g, b, 255), "mismatch at i = {i}");
    }
}

#[test]
fn render_matches_per_pixel_evaluation() {
    let mut cam = Camera::new((4, 4));
    cam.world_position = (-FP_ONE / 2, 0);
    let max_iter = 20;
    let frame = render_frame(&cam, max_iter);
    assert_eq!(frame.len(), 4 * 4 * 4);
    for py in 0..4u32 {
        for px in 0..4u32 {
            let world = cam.world_at((px as i64 * FP_ONE, py as i64 * FP_ONE));
            let count = iterations(world.0, world.1, max_iter);
            let (r, g, b, a) = color(count, max_iter);
            let at = 4 * (py * 4 + px) as usize;
            let got = (frame[at], frame[at + 1], frame[at + 2], frame[at + 3]);
            assert_eq!(got, (r, g, b, a), "pixel ({px}, {py})");
        }
    }
}

#[test]
fn render_far_view_is_black() {
    // A camera so far from the set that every sampled point escapes at once:
    // every pixel is the black of an instant escape.
    let mut cam = Camera::new((3, 2));
    cam.world_position = (100 * FP_ONE, 100 * FP_ONE);
    let frame = render_frame(&cam, 50);
    assert_eq!(frame.len(), 3 * 2 * 4);
    for p in 0..6usize {
        let at = 4 * p;
        assert_eq!((frame[at], frame[at + 1], frame[at + 2], frame[at + 3]), (0, 0, 0, 255));
    }
}

#[test]
fn render_origin_pixel_is_inside() {
    // With the window's center pixel mapped to the origin, that pixel never
    // escapes and is painted black; a corner pixel far outside escapes fast.
    let cam = Camera::new((2, 2));
    let frame = render_frame(&cam, 10);
    // Pixel (1, 1) maps to the origin exactly.
    let at = 4 * (1 * 2 + 1);
    assert_eq!((frame[at], frame[at + 1], frame[at + 2], frame[at + 3]), (0, 0, 0, 255));
    // Pixel (0, 0) maps to (-2, -2), which escapes at once.
    assert_eq!((frame[0], frame[1], frame[2], frame[3]), (0, 0, 0, 255));
    assert_eq!(iterations(cam.world_at((FP_ONE, FP_ONE)).0, cam.world_at((FP_ONE, FP_ONE)).1, 10), 10);
}
