[package]
name = "picture_frame"
version = "0.1.0"
edition = "2021"
publish = false

[dependencies]
clap = { version = "4", features = ["derive"] }
env_logger = "0.10"
image = "0.24"
log = "0.4"
pollster = "0.3"
rand = "0.8"
wgpu = "0.16"
winit = "0.28"
