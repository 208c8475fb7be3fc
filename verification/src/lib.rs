//! An interactive viewer core for the Mandelbrot escape-time fractal.
//!
//! The library models a rectangular region of the complex plane mapped to
//! screen pixels. All quantities are exact fixed-point numbers: an `i64`
//! holding `v` stands for the rational `v / FP_ONE` (Q32.32). The camera
//! owns the zoom scale, the world-space center and the pointer state, and
//! converts between screen, normalized and world coordinates; the escape-time
//! evaluator and the color mapper turn a world coordinate into an RGBA pixel.

pub mod camera;
pub mod color;
pub mod defs;
pub mod escape;
pub mod fixed;
pub mod render;

pub use camera::Camera;
pub use defs::Params;
