[package]
name = "fly_camera"
version = "0.1.0"
edition = "2021"
publish = false

[dependencies]
bytemuck = { version = "1", features = ["derive"] }
wgpu = "0.15"
winit = { version = "0.28", default-features = false, features = ["x11"] }
