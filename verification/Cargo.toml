[package]
name = "bevy_gpu_compute"
version = "0.1.0"
edition = "2021"
publish = false

[dependencies]
bevy_gpu_compute_core = "=0.1.2"
bevy = { version = "=0.18.1", default-features = false, features = ["bevy_render", "bevy_state"] }
wgpu = "=27.0.1"
pollster = "=1.0.1"
futures = "=0.3.34"
