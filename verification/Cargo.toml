[package]
name = "quick_compare"
version = "0.1.0"
edition = "2021"
publish = false

[dependencies]
bytemuck = { version = "1", features = ["derive"] }
clap = { version = "3", features = ["derive"] }
ffmpeg-next = "5"
glam = "0.21"
image = "0.24"
pollster = "0.2"
wgpu = "0.13"
winit = "0.26"
