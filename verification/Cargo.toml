[package]
name = "vse2d"
version = "0.1.0"
edition = "2021"
publish = false

[dependencies]
glam = "*"
glow = "*"
sdl2 = "*"
