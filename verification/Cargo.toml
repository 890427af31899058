[package]
name = "oit_renderer"
version = "0.1.0"
edition = "2021"
publish = false

[dependencies]
wgpu = { version = "=0.19.4", default-features = false, features = ["wgsl"] }
glam = "=0.25.0"
bytemuck = { version = "1", features = ["derive"] }
crossbeam-queue = "0.3"
pollster = "0.3"
log = "0.4"
env_logger = { version = "0.11", default-features = false }
