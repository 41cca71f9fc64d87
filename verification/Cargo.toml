[package]
name = "lead_core"
version = "0.1.0"
edition = "2021"
publish = false

[dependencies]
toml = "0.5"
glfw = "0.51"
gl = "0.14"
