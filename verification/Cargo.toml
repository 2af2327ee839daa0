[package]
name = "terrain_gen"
version = "0.1.0"
edition = "2021"
publish = false

[dependencies]
anyhow = "*"
bytemuck = { version = "*", features = ["derive"] }
cgmath = "*"
egui = "*"
egui-wgpu = "*"
egui-winit = "*"
env_logger = "*"
futures-intrusive = "*"
glam = "*"
log = "*"
pollster = "*"
web-time = "*"
wgpu = "*"
winit = "*"
