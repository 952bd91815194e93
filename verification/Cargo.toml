[package]
name = "spacetime_rs"
version = "0.1.0"
edition = "2021"
publish = false

[dependencies]
nalgebra = "0.33"
serde = { version = "1", features = ["derive"] }
