[package]
name = "sursface"
version = "0.1.0"
edition = "2021"
publish = false

[dependencies]
web-time = "1"
winit = "0.30"
wgpu = "0.20"
pollster = "0.3"
fern = "0.6"
colored = "2"
log = "0.4"
time = { version = "0.3", features = ["formatting"] }
bytemuck = { version = "1", features = ["derive"] }
lazy_static = "1"
console_log = "1"
console_error_panic_hook = "0.1"
