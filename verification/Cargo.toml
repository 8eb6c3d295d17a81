[package]
name = "msdftext"
version = "0.1.0"
edition = "2021"
publish = false

[dependencies]
wgpu = "*"
winit = "0.30"
pollster = "0.4"
log = "0.4"
env_logger = "0.11"
anyhow = "1"
wasm-bindgen = "0.2"
wasm-bindgen-futures = "0.4"
console_log = "1"
console_error_panic_hook = "0.1"
