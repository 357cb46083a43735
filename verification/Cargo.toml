[package]
name = "glyph_cache"
version = "0.1.0"
edition = "2021"
publish = false

[dependencies]
dashmap = "6"
peniko = "0.4"
half = "2"
bytemuck = { version = "1", features = ["derive"] }
ttf-parser = "0.25"
