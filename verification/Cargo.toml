[package]
name = "eigencurve"
version = "0.1.0"
edition = "2021"
publish = false

[dependencies]
nalgebra = "*"
raylib = "*"
serde = { version = "1", features = ["derive"] }
serde_json = "1"
ttf-parser = "*"
