[package]
name = "poseidon"
version = "0.1.0"
edition = "2021"
publish = false

[dependencies]
gl = "*"
auto_ops = "*"

[dependencies.sdl2]
version = "*"
features = ["image"]
