[package]
name = "ray_tracer"
version = "0.1.0"
edition = "2021"
publish = false

[dependencies]
bytemuck = "=1.25.2"
eframe = { version = "=0.23.0", default-features = false, features = ["wgpu", "x11", "default_fonts"] }
log = "=0.4.34"
wasm-bindgen-futures = "=0.4.79"
