[package]
name = "download_progress"
version = "0.1.0"
edition = "2021"
publish = false

[dependencies]
pbr = "=1.0.4"
