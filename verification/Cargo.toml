[package]
name = "runtime_blob"
version = "0.1.0"
edition = "2021"
publish = false

[dependencies]
parity-wasm = "0.42"
pwasm-utils = "0.18"
