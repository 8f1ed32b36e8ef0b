[package]
name = "gpu"
version = "0.1.0"
edition = "2021"
publish = false

[dependencies]
regex = "1"
shaderc = "0.6"
wgpu = "0.6"
futures = "0.3"
