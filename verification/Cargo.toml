[package]
name = "pong"
version = "0.1.0"
edition = "2021"
publish = false

[dependencies]
gl = "*"
image = "*"
sdl2 = "*"
