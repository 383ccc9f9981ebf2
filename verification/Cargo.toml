[package]
name = "gpu_gallery"
version = "0.1.0"
edition = "2021"
publish = false

[dependencies]
bytemuck = "1"
env_logger = "0.10"
glam = "0.24"
image = { version = "0.24", default-features = false, features = ["png"] }
