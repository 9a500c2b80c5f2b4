[package]
name = "gpu_dispatch"
version = "0.1.0"
edition = "2021"
publish = false

[dependencies]
wgpu = { version = "=26.0.1", features = ["noop"] }
tokio = { version = "=1.54.1", features = ["rt", "macros"] }
thiserror = "=2.0.21"
