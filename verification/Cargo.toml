[package]
name = "wws_worker"
version = "0.1.0"
edition = "2021"
publish = false

[dependencies]
actix-web = { version = "4", default-features = false }
bytes = "1"
serde = { version = "1", features = ["derive"] }
serde_json = "1"
sha256 = "1"
wasi-common = "13"
wasmtime = { version = "13", default-features = false, features = ["async", "component-model", "cranelift", "wat"] }
wasmtime-wasi = "13"
wasmtime-wasi-nn = "13"
