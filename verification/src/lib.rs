//! Light spot rendering engine: synthesizes grayscale raster images made of
//! overlapping parametric light spots placed on a 2D canvas, with windowed,
//! subsampled and multi-format (raw and PNG) export.
//!
//! Continuous quantities are carried in a signed 64-bit fixed-point domain
//! (see [`fixed`]); all arithmetic saturates instead of wrapping, and every
//! operation of the engine is specified and verified over that domain.

pub mod canvas;
pub mod encode;
pub mod fixed;
pub mod geometry;
pub mod render;
pub mod trig;

use vstd::prelude::*;

verus! {

/// Image pixel value type: 16-bit pixels.
pub type Pixel = u16;

/// Largest representable pixel sample value.
pub const PIXEL_MAX: Pixel = 65535;

} // verus!
