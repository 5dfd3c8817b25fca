[package]
name = "flycam"
version = "0.1.0"
edition = "2021"
publish = false

[dependencies]
wgpu = "0.12"
winit = "0.26"
glam = "0.20"
bytemuck = { version = "1", features = ["derive"] }
env_logger = "0.9"
pollster = "0.2"
