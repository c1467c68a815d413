[package]
name = "app_shell"
version = "0.1.0"
edition = "2021"
publish = false

[dependencies]
anyhow = "1"
console_error_panic_hook = "0.1"
console_log = "1"
env_logger = "0.11"
log = "0.4"
pollster = "0.4"
wasm-bindgen = "0.2"
wasm-bindgen-futures = "0.4"
wgpu = { version = "*", default-features = false }
winit = { version = "0.30", default-features = false, features = ["rwh_06", "x11"] }
