[package]
name = "neptune_render"
version = "0.1.0"
edition = "2021"
publish = false

[dependencies]
slotmap = "1"
ash = "0.37"
gpu-allocator = { version = "0.22", default-features = false, features = ["vulkan"] }
log = "0.4"
thiserror = "1"
anyhow = "1"
clap = { version = "4", features = ["derive"] }
winit = "0.29"
winit_input_helper = "0.15"
pretty_env_logger = "0.5"
