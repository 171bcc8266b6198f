[package]
name = "flutter_wgpu_texture"
version = "0.1.0"
edition = "2021"
publish = false

[dependencies]
bevy = { version = "=0.20.1", default-features = false }
wgpu = "*"
wgpu-hal = "*"
ash = "*"
serde = { version = "*", features = ["derive"] }
serde_json = "*"
ron = "*"
bytemuck = { version = "*", features = ["derive"] }
glam = "*"
pollster = "*"
