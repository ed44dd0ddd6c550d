[package]
name = "blake3_stream"
version = "0.1.0"
edition = "2021"
publish = false

[dependencies]
blake3 = { version = "1", features = ["pure"] }
wasm-bindgen = "0.2"
