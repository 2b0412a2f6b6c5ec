[package]
name = "fast_pairings"
version = "0.1.0"
edition = "2021"
publish = false

[dependencies]
subtle = "2"

[dev-dependencies]
rand = "0.8"
