[package]
name = "nn_canvas"
version = "0.1.0"
edition = "2021"
publish = false

[dependencies]
yaml-rust = "=0.4.5"
gl = "=0.14.0"
shared_library = "=0.1.9"
gtk = { version = "=0.8.1", features = ["v3_16"] }
