[package]
name = "render_gl"
version = "0.1.0"
edition = "2021"
publish = false

[dependencies]
failure = "0.1"
gl = "*"
nalgebra-glm = "*"
sdl2 = "*"
vec-2-10-10-10 = "*"
