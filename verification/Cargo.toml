[package]
name = "globe_vis"
version = "0.1.0"
edition = "2021"
publish = false

[dependencies]
glam = "*"
glow = "*"
glutin = "0.29"
