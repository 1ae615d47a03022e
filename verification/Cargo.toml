[package]
name = "pong"
version = "0.1.0"
edition = "2021"
publish = false

[dependencies]
amethyst = { version = "=0.15.3", default-features = false, features = ["audio", "renderer", "vulkan"] }
