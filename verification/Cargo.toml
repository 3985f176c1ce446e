[package]
name = "voxeller"
version = "0.1.0"
edition = "2021"
publish = false

[dependencies]
anyhow = "1"
ash = "=0.38.0"
ash-window = "0.13"
bytemuck = { version = "1", features = ["derive"] }
core-graphics-types = "0.1"
env_logger = "0.11"
glam = "0.29"
metal = "0.29"
objc = "0.2"
winit = "0.30"
