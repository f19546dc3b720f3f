[package]
name = "rendering"
version = "0.1.0"
edition = "2021"
publish = false

[dependencies]
ash = "0.38"
bytemuck = "1"
gpu-allocator = "0.27"
parking_lot = "0.12"
winit = "0.30"
