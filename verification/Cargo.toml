[package]
name = "iso_engine"
version = "0.1.0"
edition = "2021"
publish = false

[dependencies]
rand = "0.8"
cgmath = "0.18"
bytemuck = { version = "1", features = ["derive"] }
winit = "0.28"
wgpu = "0.17"
instant = "0.1"
log = "0.4"
env_logger = "0.10"
image = { version = "0.24", default-features = false, features = ["png"] }
serde = { version = "1", features = ["derive"] }
serde_json = "1"
