[package]
name = "inox2d-wgpu"
version = "0.1.0"
edition = "2021"
publish = false

[dependencies]
bytemuck = { version = "1", features = ["derive"] }
glam = "*"
inox2d = "*"
log = "*"
memoffset = "*"
web-time = "*"
wgpu = "*"
winit = "*"
