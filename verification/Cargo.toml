[package]
name = "wanderlust"
version = "0.1.0"
edition = "2021"
publish = false

[dependencies]
bevy = { version = "0.9", default-features = false }
bevy_rapier3d = { version = "0.19", default-features = false, features = ["dim3"] }
