[package]
name = "quadengine"
version = "0.1.0"
edition = "2021"
publish = false

[dependencies]
bytemuck = "1"
cgmath = "0.18"
env_logger = "0.9"
gameloop = "*"
ico = "*"
image = "0.24"
log = "0.4"
vulkano = "0.29"
vulkano-shaders = "0.29"
vulkano-win = "0.29"
winit = "0.26"
