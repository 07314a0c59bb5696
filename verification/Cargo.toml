[package]
name = "space_engine"
version = "0.1.0"
edition = "2021"
publish = false

[dependencies]
ash = "0.38"
ash-window = "0.13"
winit = { version = "0.30", default-features = false, features = ["rwh_06", "x11"] }
gpu-allocator = "0.27"
anyhow = "1"
gltf = "1"
enable-ansi-support = "0.2"
rand = "*"
