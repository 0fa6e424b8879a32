[package]
name = "wgpu_text"
version = "0.1.0"
edition = "2021"
publish = false

[dependencies]
glyph_brush = "0.7"
wgpu = "0.17"
bytemuck = { version = "1", features = ["derive"] }
log = "0.4"
