//! A continuously zooming Mandelbrot view: the per-frame viewport recurrence,
//! the escape-time grid over the pixels, and the count-to-colour mapping.
//!
//! Plane coordinates are fixed-point numbers: an `i64` counting units of
//! `1 / ONE` of the complex plane. Scales (pixels per plane unit) count units
//! of `1 / SCALE_ONE`. The colour scalar counts millionths.

pub mod fixed;
pub mod escape;
pub mod viewport;
pub mod parallel;
pub mod colour;
pub mod config;
pub mod laws;
