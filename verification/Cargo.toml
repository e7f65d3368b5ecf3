[package]
name = "tachyonfx"
version = "0.1.0"
edition = "2021"
publish = false

[dependencies]
ratatui = { version = "0.29", default-features = false }
colorsys = "0.6"
simple-easing = "1"
