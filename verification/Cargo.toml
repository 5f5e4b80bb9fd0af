[package]
name = "horizon_engine"
version = "0.1.0"
edition = "2021"
publish = false

[dependencies]
glam = "*"
gltf = "*"
bytemuck = { version = "*", features = ["derive"] }
