[package]
name = "plumeimpactor"
version = "0.1.0"
edition = "2021"
publish = false

[dependencies]
iced = { version = "0.14", default-features = false, features = ["wgpu", "tiny-skia", "canvas", "image-without-codecs", "advanced", "thread-pool", "x11", "web-colors"] }
image = { version = "0.25", default-features = false, features = ["png", "jpeg"] }
log = "0.4"
env_logger = "0.11"
rustls = { version = "0.23", default-features = false, features = ["ring", "std"] }
single-instance = "0.3"
wgpu = "27"
