[package]
name = "felt"
version = "0.1.0"
edition = "2021"
publish = false

[dependencies]
smallvec = "*"
vello = "*"
winit = "*"
pollster = "*"
thiserror = "*"
env_logger = "*"
bytemuck = "*"
skrifa = "*"
