[package]
name = "terminal_image_viewer"
version = "0.1.0"
edition = "2021"
publish = false

[dependencies]
ratatui = "*"
color-eyre = "*"
image = { version = "*", default-features = false, features = ["png", "jpeg"] }
