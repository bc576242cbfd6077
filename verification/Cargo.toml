[package]
name = "pebble"
version = "0.1.0"
edition = "2021"
publish = false

[dependencies]
wgpu = "*"
winit = "*"
winit_input_helper = "*"
glam = { version = "*", features = ["bytemuck"] }
gltf = "*"
image = { version = "*", default-features = false, features = ["png", "jpeg", "hdr", "exr"] }
half = "*"
bytemuck = { version = "*", features = ["derive"] }
tracing = "*"
pollster = "*"
egui = "*"
egui-wgpu = "*"
