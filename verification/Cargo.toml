[package]
name = "voxel_renderer"
version = "0.1.0"
edition = "2021"
publish = false

[dependencies]
anyhow = "1"
ash = "0.38"
enum-map = "2"
image = { version = "0.25", default-features = false, features = ["png", "jpeg"] }
log = "0.4"
nalgebra-glm = "*"
pretty_env_logger = "0.5"
sdl3 = "*"
strum = "*"
strum_macros = "*"
