[package]
name = "cylinder_map"
version = "0.1.0"
edition = "2021"
publish = false

[dependencies]
bytemuck = { version = "1", features = ["derive"] }
log = "0.4"
wgpu = "0.16"
winit = { version = "0.28", default-features = false, features = ["x11"] }
