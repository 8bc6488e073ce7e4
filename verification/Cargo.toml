[package]
name = "image_kit"
version = "0.1.0"
edition = "2021"
publish = false

[dependencies]
image = "0.25"
kamadak-exif = "0.6"
serde = { version = "1", features = ["derive"] }
serde-wasm-bindgen = "0.6"
wasm-bindgen = "0.2"
