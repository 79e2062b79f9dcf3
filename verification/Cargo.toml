[package]
name = "rust_in_peace"
version = "0.1.0"
edition = "2021"
publish = false

[dependencies]
bevy = { version = "0.18", default-features = false }
rand = "0.9"
petgraph = "0.8"
