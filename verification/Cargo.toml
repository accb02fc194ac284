[package]
name = "addon_host"
version = "0.1.0"
edition = "2021"
publish = false

[dependencies]
wasmtime = "25"
wasmtime-wasi = "25"
