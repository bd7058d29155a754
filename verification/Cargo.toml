[package]
name = "realesrgan-rs"
version = "0.1.0"
edition = "2021"
publish = false

[dependencies]
image = { version = "0.25", default-features = false, features = ["png", "jpeg"] }
libc = "0.2"
thiserror = "1"
