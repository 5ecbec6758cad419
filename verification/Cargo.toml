[package]
name = "minecraft_tty"
version = "0.1.0"
edition = "2021"
publish = false

[dependencies]
anyhow = "1"
bytemuck = { version = "1", features = ["derive"] }
crossterm = "0.27"
env_logger = "0.10"
glam = "0.25"
noise = "0.9"
pollster = "0.3"
wgpu = { version = "0.19", default-features = false, features = ["wgsl"] }
