[package]
name = "gpu_oneshot"
version = "0.1.0"
edition = "2021"
publish = false

[dependencies]
bytemuck = { version = "=1.25.2", features = ["extern_crate_alloc"] }
pollster = "=0.2.5"
wgpu = "=0.12.0"
