[package]
name = "ce-iam-core-wasm"
version = "0.1.0"
edition = "2021"
publish = false

[dependencies]
anyhow = "1"
hex = "0.4"
serde_json = "1"
wasm-bindgen = "0.2"
console_error_panic_hook = "0.1"
