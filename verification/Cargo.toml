[package]
name = "render_core"
version = "0.1.0"
edition = "2021"
publish = false

[dependencies]
anyhow = "1"
base64 = "0.12"
bytemuck = "1"
cgmath = "0.17"
futures = "0.3"
gltf = "0.15"
image = "0.23"
shaderc = "0.6"
wgpu = "0.5"
winit = "0.22"
