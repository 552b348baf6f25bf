//! Renders a raster image as text: every pixel of a (possibly downscaled)
//! grid becomes one character of a fixed luminance-ordered ramp, optionally
//! wrapped in a truecolor escape sequence and optionally blanked out when the
//! pixel is fully transparent.
//!
//! The crate holds the whole transform pipeline: geometry resolution (explicit
//! percentage scale or terminal fit), luminance mapping, the per-pixel color
//! policy, and the row-major renderer, together with a row-partitioned variant
//! whose output is proved equal to the sequential one. Image decoding,
//! contrast adjustment and nearest-neighbor resizing are done by the `image`
//! crate behind a small set of trusted declarations.

pub mod cell;
pub mod geometry;
pub mod grid;
pub mod pixel;
pub mod ramp;
pub mod render;
pub mod source;
pub mod string_util;
