[package]
name = "wgpu_mipmap"
version = "0.1.0"
edition = "2021"
publish = false

[dependencies]
wgpu = "*"
log = "*"
thiserror = "*"
pollster = "*"
