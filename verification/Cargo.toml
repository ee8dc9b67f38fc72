[package]
name = "revenant"
version = "0.1.0"
edition = "2021"
publish = false

[dependencies]
cgmath = "*"
freetype-rs = "*"
gl = "*"
glfw = "*"
glm = "*"
image = { version = "*", default-features = false, features = ["jpeg", "png"] }
