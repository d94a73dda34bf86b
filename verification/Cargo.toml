[package]
name = "wasmtime_rb"
version = "0.1.0"
edition = "2021"
publish = false
rust-version = "1.95"

[dependencies]
wat = "=1.263.0"
wasmtime = "=46.0.3"
wasmtime-wasi = "=46.0.3"
magnus = "=0.9.3"
rb-sys = "=0.9.130"
anyhow = "=1.0.104"
lazy_static = "=1.5.1"
bytes = "=1.12.1"
async-trait = "=0.1.92"
tokio = { version = "=1.54.1", features = ["rt-multi-thread", "time"] }
async-timer = "=0.7.4"
static_assertions = "=1.1.0"
