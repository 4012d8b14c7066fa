[package]
name = "shader_canvas"
version = "0.1.0"
edition = "2021"
publish = false

[dependencies]
anyhow = "=1.0.104"
bytemuck = "=1.25.2"
cfg-if = "=1.0.5"
cgmath = "=0.18.0"
console_error_panic_hook = "=0.1.7"
console_log = "=0.2.2"
env_logger = { version = "=0.9.3", default-features = false }
image = { version = "=0.24.9", default-features = false, features = ["png"] }
log = "=0.4.34"
rocket = { version = "=0.5.2", default-features = false }
wasm-bindgen = "=0.2.129"
web-sys = { version = "=0.3.72", features = ["Document", "Window", "Element"] }
wgpu = "=0.14.2"
winit = { version = "=0.27.5", default-features = false, features = ["x11"] }
