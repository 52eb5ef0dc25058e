[package]
name = "wasm2uasm"
version = "0.1.0"
edition = "2021"
publish = false

[dependencies]
anyhow = "1"
env_logger = "*"
hashbrown = "*"
log = "0.4"
wasmparser = "*"
