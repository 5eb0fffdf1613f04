//! The stages that turn an image into text.
pub mod buffers;
pub mod char_maps;
pub mod image_pipeline;
pub mod resample;
