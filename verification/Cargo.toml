[package]
name = "particle_sim"
version = "0.1.0"
edition = "2021"
publish = false

[dependencies]
bytemuck = "1"
pollster = "0.2"
rand = "0.8"
wgpu = "0.12"
winit = "0.26"
