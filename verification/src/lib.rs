//! An interactive Mandelbrot-set viewer core.
//!
//! The escape-time evaluator, the frame renderer and the viewport controller
//! work on fixed-point coordinates (signed 64-bit integers scaled by 2^24),
//! so every step of the computation has exact integer semantics and a proved
//! contract.  A windowing host polls events, feeds them to the controller and
//! displays the pixel buffers the renderer produces.

use vstd::prelude::*;

pub mod escape;
pub mod fixed;
pub mod render;
pub mod view;

verus! {

/// Default viewport width in pixels.
pub const WIDTH: u32 = 800;

/// Default viewport height in pixels.
pub const HEIGHT: u32 = 600;

/// Default iteration cap of the evaluator.
pub const MAX_ITER: u32 = 64;

/// A grayscale pixel buffer, row-major.
pub type Pixels = Vec<u8>;

} // verus!
