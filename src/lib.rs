//! A small software rasterizer: a canvas samples a layer once per pixel,
//! composites each sample over its background and encodes the image as
//! the bytes of a plain-text PPM pixmap.
//!
//! Intensities are fixed-point fractions of [`color::ONE`] and pixel
//! coordinates are exact integers, so every step is stated and proved
//! over integer arithmetic.
pub mod saturate;
pub mod color;
pub mod geometry;
pub mod layer;
pub mod canvas;

pub use color::Color;
pub use geometry::{Size, Position, Projection};
pub use layer::{Layer, SplitLayer};
pub use canvas::Canvas;
