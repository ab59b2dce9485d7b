[package]
name = "rustpix"
version = "0.1.0"
edition = "2021"
publish = false

[dependencies]
image = "0.24"
rayon = "1"
uuid = { version = "1", features = ["v4"] }
webp = "0.2"
