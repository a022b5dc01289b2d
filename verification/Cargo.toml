[package]
name = "spectre"
version = "0.1.0"
edition = "2021"
publish = false

[dependencies]
hex = "0.4"
serde = { version = "1", features = ["derive"] }
serde_json = "1"
separator = "0.4"
thiserror = "1"
wasm-bindgen = "0.2"
js-sys = "0.3"
workflow-wasm = "*"
