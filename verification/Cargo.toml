[package]
name = "toy_render"
version = "0.1.0"
edition = "2021"
publish = false

[dependencies]
wgpu = "*"
pollster = "*"
image = { version = "*", default-features = false }
