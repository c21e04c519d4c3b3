[package]
name = "parametric_surface"
version = "0.1.0"
edition = "2021"
publish = false

[dependencies]
bytemuck = { version = "1", features = ["derive"] }
futures = "0.3"
glam = { version = "0.24", features = ["bytemuck"] }
num-complex = "0.4"
rhai = { version = "1", features = ["f32_float"] }
wgpu = "0.16"
winit = "0.28"
