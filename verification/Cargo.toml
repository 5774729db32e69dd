[package]
name = "city_simulator"
version = "0.1.0"
edition = "2021"
publish = false

[dependencies]
bevy_ecs = "*"
glam = "*"
rand = "0.8"
wasm-bindgen = "*"
