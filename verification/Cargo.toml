[package]
name = "termcam"
version = "0.1.0"
edition = "2021"
publish = false

[dependencies]
resize = "*"
rgb = "*"
crossterm = "*"
v4l = "*"
