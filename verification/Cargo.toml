[package]
name = "spinning_quad"
version = "0.1.0"
edition = "2021"
publish = false

[dependencies]
glow = "*"
image = { version = "*", default-features = false, features = ["png"] }
nalgebra-glm = "*"
sdl2 = "*"
