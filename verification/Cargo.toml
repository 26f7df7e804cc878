[package]
name = "wasm_compat"
version = "0.1.0"
edition = "2021"
publish = false

[dependencies]
failure = "=0.1.8"
wasm-nm = { version = "=0.2.1", default-features = false }
