[package]
name = "glyph_pipeline"
version = "0.1.0"
edition = "2021"
publish = false

[dependencies]
fast_image_resize = "3"
image = { version = "0.24", default-features = false }
