[package]
name = "cpu"
version = "0.1.0"
edition = "2021"
publish = false

[dependencies]
bytemuck = { version = "1", features = ["derive"] }
cfg-if = "1"
cgmath = "0.18"
console_error_panic_hook = "0.1"
console_log = "1"
env_logger = "0.10"
log = "0.4"
rand = "0.7"
wasm-bindgen = "0.2"
web-sys = { version = "0.3", features = ["Document", "Element", "Window"] }
wgpu = "0.16"
winit = "0.28"
