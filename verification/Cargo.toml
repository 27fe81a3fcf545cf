[package]
name = "camera_control"
version = "0.1.0"
edition = "2021"
publish = false

[dependencies]
bytemuck = { version = "1", features = ["derive"] }
cgmath = "0.18"
winit = { version = "0.30", default-features = false, features = ["x11", "rwh_06"] }
