[package]
name = "media_sidecar"
version = "0.1.0"
edition = "2021"
publish = false

[dependencies]
anyhow = "=1.0.104"
ffmpeg-sidecar = "=2.7.0"
