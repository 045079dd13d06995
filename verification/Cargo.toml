[package]
name = "citro3d"
version = "0.1.0"
edition = "2021"
publish = false

[dependencies]
glam = "0.24.2"
litrs = "0.4.2"
quote = "1.0.47"
