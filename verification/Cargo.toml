[package]
name = "compute_dispatch"
version = "0.1.0"
edition = "2021"
publish = false

[dependencies]
bytemuck = "1"
futures-channel = "0.3"
image = { version = "0.24", default-features = false, features = ["png"] }
ocl = "0.19"
pollster = "0.3"
wgpu = "0.17"
