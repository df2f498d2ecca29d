[package]
name = "wgpu"
version = "0.6.0"
edition = "2021"
publish = false

[dependencies]
wgpu-types = "0.6"
wgpu-core = "0.6"
parking_lot = "0.11"
futures = "0.3"
raw-window-handle = "0.3"
serde = { version = "1", features = ["derive"] }
