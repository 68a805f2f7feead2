[package]
name = "nyon"
version = "0.1.0"
edition = "2021"
publish = false

[dependencies]
naga = { version = "*", features = ["wgsl-in"] }
wgpu = { version = "*", default-features = false }
thiserror = "2"
