[package]
name = "renderer"
version = "0.1.0"
edition = "2021"
publish = false

[dependencies]
failure = "0.1"
gl = "0.14"
glutin = "0.24"
image = { version = "0.24", default-features = false, features = ["png"] }
nalgebra = "0.32"
