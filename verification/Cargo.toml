[package]
name = "unzipper"
version = "0.1.0"
edition = "2021"
publish = false

[dependencies]
miniz_oxide = "*"
serde_json = "*"
wasm-bindgen = "*"
serde-wasm-bindgen = "*"
