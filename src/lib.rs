//! Escape-time rendering of the Mandelbrot set: palettes that turn iteration
//! counts into colors, and the row-major RGB pixel buffer built from them.
pub mod color;
pub mod coloring;
pub mod error;
pub mod raster;

pub use color::Color;
pub use coloring::Palette;
pub use error::RenderError;
