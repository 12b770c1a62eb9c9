[package]
name = "render_engine"
version = "0.1.0"
edition = "2021"
publish = false

[dependencies]
wgpu = "0.13"
winit = "0.27"
pollster = "0.2"
env_logger = "0.9"
glam = "0.21"
