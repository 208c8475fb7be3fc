use fractals::defs::{FP_ONE, MAX_ITER, START_SCALE};
use fractals::Camera;
use fractals::Params;

/// The fixed-point zoom factor for a scroll delta, as the viewer computes it:
/// `ZOOM_FACTOR ^ (-delta * ZOOM_SENSITIVITY)` with factor 1.1, sensitivity 1.
fn zoom_factor(delta: f64) -> i64 {
    (1.1f64.powf(-delta) * FP_ONE as f64).round() as i64
}

#[test]
fn new_camera_defaults() {
    let cam = Camera::new((800, 600));
    assert_eq!(cam.scale, START_SCALE);
    assert_eq!(cam.size, (800, 600));
    assert_eq!(cam.world_position, (0, 0));
    assert_eq!(cam.mouse_position, (0, 0));
    assert!(!cam.mouse_pressed);
}

#[test]
fn zoom_anchoring() {
    let mut cam = Camera::new((800, 600));
    cam.world_position = (123456789, -987654321);
    cam.scale = 3 * FP_ONE;
    cam.update_mouse_position((250 * FP_ONE + FP_ONE / 2, 100 * FP_ONE + 12345));
    let before = cam.mouse_world_position();
    cam.zoom(3 * FP_ONE / 2);
    let after = cam.mouse_world_position();
    assert_eq!(before, after);
    assert_eq!(cam.scale, 3 * FP_ONE / 2 * 3);
}

#[test]
fn zoom_anchoring_when_zooming_in() {
    let mut cam = Camera::new((1024, 768));
    cam.world_position = (-4 * FP_ONE, FP_ONE / 3);
    cam.update_mouse_position((1000 * FP_ONE, 7 * FP_ONE));
    let before = cam.mouse_world_position();
    cam.zoom(zoom_factor(5.0));
    let after = cam.mouse_world_position();
    assert_eq!(before, after);
    assert!(cam.scale < START_SCALE);
}

#[test]
fn zoom_unit_factor_is_noop() {
    let mut cam = Camera::new((640, 480));
    cam.world_position = (55555, -77777);
    cam.update_mouse_position((12 * FP_ONE, 34 * FP_ONE));
    let saved = (cam.scale, cam.world_position, cam.mouse_position, cam.size);
    cam.zoom(FP_ONE);
    assert_eq!(saved, (cam.scale, cam.world_position, cam.mouse_position, cam.size));
}

#[test]
fn zoom_scroll_delta_zero_is_noop() {
    // A scroll delta of zero gives the unit factor exactly, and the unit
    // factor changes nothing.
    assert_eq!(zoom_factor(0.0), FP_ONE);
    let mut cam = Camera::new((800, 600));
    cam.world_position = (-99999, 88888);
    cam.update_mouse_position((631 * FP_ONE, 17 * FP_ONE));
    cam.zoom(zoom_factor(0.0));
    assert_eq!(cam.scale, START_SCALE);
    assert_eq!(cam.world_position, (-99999, 88888));
}

#[test]
fn pan_reversible() {
    let mut cam = Camera::new((800, 600));
    cam.world_position = (987654321, 123456789);
    cam.set_pointer_pressed(true);
    let delta = (37 * FP_ONE + 41, -(15 * FP_ONE + 7));
    cam.pan(delta);
    cam.pan((-delta.0, -delta.1));
    assert_eq!(cam.world_position, (987654321, 123456789));
}

#[test]
fn pan_moves_against_the_delta() {
    let mut cam = Camera::new((800, 600));
    cam.set_pointer_pressed(true);
    cam.pan((80 * FP_ONE, 0));
    // Dragging right moves the visible window left in world space, by the
    // delta divided by the window size, times scale and aspect:
    // 80/800 * 4.0 * 800/600 world units, truncated at each division.
    assert_eq!(cam.world_position.0, -2290649221);
    assert_eq!(cam.world_position.1, 0);
}

#[test]
fn pointer_at_window_center_maps_to_world_center() {
    let mut cam = Camera::new((800, 600));
    cam.update_mouse_position((400 * FP_ONE, 300 * FP_ONE));
    assert_eq!(cam.mouse_world_position(), (0, 0));
    cam.world_position = (5 * FP_ONE, -7 * FP_ONE);
    assert_eq!(cam.mouse_world_position(), (5 * FP_ONE as i128, -7 * FP_ONE as i128));
}

#[test]
fn pan_without_press_is_noop() {
    let mut cam = Camera::new((800, 600));
    cam.world_position = (424242, -424242);
    cam.update_mouse_position((3 * FP_ONE, 4 * FP_ONE));
    cam.pan((25 * FP_ONE, -60 * FP_ONE));
    assert_eq!(cam.scale, START_SCALE);
    assert_eq!(cam.world_position, (424242, -424242));
    assert_eq!(cam.mouse_position, (3 * FP_ONE, 4 * FP_ONE));
    assert_eq!(cam.size, (800, 600));
    assert!(!cam.mouse_pressed);
}

#[test]
fn resize_preserves_camera() {
    let mut cam = Camera::new((800, 600));
    cam.world_position = (-31415926, 27182818);
    cam.scale = 7 * FP_ONE;
    cam.update_mouse_position((5 * FP_ONE, 6 * FP_ONE));
    cam.resize((1920, 1080));
    assert_eq!(cam.size, (1920, 1080));
    assert_eq!(cam.scale, 7 * FP_ONE);
    assert_eq!(cam.world_position, (-31415926, 27182818));
    assert_eq!(cam.mouse_position, (5 * FP_ONE, 6 * FP_ONE));
}

#[test]
fn resize_to_largest_size() {
    let mut cam = Camera::new((1, 1));
    cam.resize((16384, 16384));
    assert_eq!(cam.size, (16384, 16384));
    assert_eq!(cam.scale, START_SCALE);
}

#[test]
fn degenerate_window_skips_zoom_and_pan() {
    let mut cam = Camera::new((800, 0));
    cam.set_pointer_pressed(true);
    cam.zoom(2 * FP_ONE);
    cam.pan((10 * FP_ONE, 10 * FP_ONE));
    assert_eq!(cam.scale, START_SCALE);
    assert_eq!(cam.world_position, (0, 0));
}

#[test]
fn end_to_end_center_zoom() {
    // Window 800x600, scale 4.0, center (0,0), pointer at the exact center.
    let mut cam = Camera::new((800, 600));
    cam.update_mouse_position((400 * FP_ONE, 300 * FP_ONE));
    let factor = zoom_factor(1.0);
    cam.zoom(factor);
    // The pointer sat on the already-centered world point: the center must
    // not move, and the scale shrinks by exactly the factor.
    assert_eq!(cam.world_position, (0, 0));
    assert_eq!(cam.scale, 4 * factor);
    assert!(cam.scale < START_SCALE);
}

#[test]
fn params_snapshot() {
    let mut p = Params::new();
    assert_eq!(p.max_iter, MAX_ITER);
    assert_eq!(p.scale, START_SCALE);
    assert_eq!(p.size, (0, 0));
    assert_eq!(p.center, (0, 0));
    p.set_max_iter(256);
    p.set_scale(3 * FP_ONE);
    p.set_size((1024, 768));
    p.set_center((-FP_ONE, FP_ONE));
    assert_eq!(p.max_iter, 256);
    assert_eq!(p.scale, 3 * FP_ONE);
    assert_eq!(p.size, (1024, 768));
    assert_eq!(p.center, (-FP_ONE, FP_ONE));
}
