[package]
name = "complementary"
version = "0.1.0"
edition = "2021"
publish = false

[dependencies]
bytemuck = { version = "=1.25.2", features = ["derive"] }
cgmath = "=0.18.0"
env_logger = "=0.9.3"
imgui = "=0.8.2"
imgui-wgpu = "=0.19.0"
log = "=0.4.34"
objc = "=0.2.7"
pollster = "=0.2.5"
raw-window-handle = "=0.4.3"
sdl2 = { version = "=0.35.2", features = ["raw-window-handle"] }
wgpu = "=0.12.0"
