[package]
name = "irid_renderer"
version = "0.1.0"
edition = "2021"
publish = false

[dependencies]
wgpu = "*"
winit = "*"
pollster = "*"
bytemuck = "*"
cgmath = "*"
anyhow = "*"
