[package]
name = "presentation"
version = "0.1.0"
edition = "2021"
publish = false

[dependencies]
bevy = { version = "0.11", default-features = false }
public-ip = "0.2"
tokio = { version = "1", features = ["rt"] }
wallpaper = "3"
