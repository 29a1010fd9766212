[package]
name = "framecore"
version = "0.1.0"
edition = "2021"
publish = false

[dependencies]
wgpu = "*"
winit = "*"
futures = "*"
rand = "*"
cgmath = "*"
bytemuck = { version = "*", features = ["derive"] }
log = "*"
fern = "*"
chrono = "*"
