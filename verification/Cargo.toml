[package]
name = "external_gpu"
version = "0.1.0"
edition = "2021"
publish = false

[dependencies]
anyhow = "1"
wgpu = { version = "*", default-features = false, features = ["std", "noop"] }
