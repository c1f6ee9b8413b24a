[package]
name = "pathtracer"
version = "0.1.0"
edition = "2021"
publish = false

[dependencies]
glm = "=0.3.0"
rand = "=0.8.8"
