[package]
name = "gltf_viewer"
version = "0.1.0"
edition = "2021"
publish = false

[dependencies]
anyhow = "1"
bytemuck = { version = "1", features = ["derive"] }
env_logger = "0.11"
glam = "0.30"
gltf = "1.4"
image = { version = "0.25", default-features = false }
pollster = "0.4"
wgpu = "27"
winit = "0.30"
