[package]
name = "vortex_array"
version = "0.1.0"
edition = "2021"
publish = false

[dependencies]
arrow-array = "53"
arrow-buffer = "53"
arrow-schema = "53"
serde = { version = "1", features = ["derive"] }
