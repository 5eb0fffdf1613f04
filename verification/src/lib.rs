//! Renders raster images as grids of text glyphs.
//!
//! The crate has two halves. `pipeline::char_maps` maps a small block of
//! luminance samples to one character, under several interchangeable
//! encodings. `pipeline::image_pipeline` resamples a source image into the
//! pixel buffers those encodings sample from and walks the target grid to
//! assemble the lines of text.
pub mod common;
pub mod pipeline;
