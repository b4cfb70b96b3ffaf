[package]
name = "image_texture_conversion"
version = "0.1.0"
edition = "2021"
publish = false

[dependencies]
image = { version = "0.24", default-features = false }
bevy_log = { version = "0.13", default-features = false }
