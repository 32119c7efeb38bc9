[package]
name = "wasm_runtime_benchmark"
version = "0.1.0"
edition = "2021"
publish = false

[dependencies]
lucet-runtime = "=0.6.1"
multibase = "=0.9.3"
wasmer = { version = "=6.1.0", features = ["singlepass"] }
wasmer-cache = "=6.1.0"
