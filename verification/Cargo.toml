[package]
name = "smoke_sim"
version = "0.1.0"
edition = "2021"
publish = false

[dependencies]
anyhow = "1"
bytemuck = { version = "1", features = ["derive"] }
cgmath = "0.18"
half = "2"
instant = "0.1"
log = "0.4"
pollster = "0.3"
wgpu = "26"
winit = "0.30"
