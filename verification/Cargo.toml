[package]
name = "pixel_paint"
version = "0.1.0"
edition = "2021"
publish = false

[dependencies]
line_drawing = "1"
image = { version = "0.23", default-features = false }
nannou = "0.18"
nannou_conrod = "0.18"
env_logger = "0.9"
rand = "0.8"
