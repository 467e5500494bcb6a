[package]
name = "vulkan_ctx"
version = "0.1.0"
edition = "2021"
publish = false

[dependencies]
ash = "0.37"
ash-window = "0.12"
colored = "2"
raw-window-handle = "0.5"
winit = { version = "0.28", default-features = false, features = ["x11"] }
