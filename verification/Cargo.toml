[package]
name = "scene_camera"
version = "0.1.0"
edition = "2021"
publish = false

[dependencies]
bevy = { version = "0.13", default-features = false }
wasm-bindgen = "0.2"
