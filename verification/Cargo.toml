[package]
name = "graphics_core"
version = "0.1.0"
edition = "2021"
publish = false

[dependencies]
gfx = "0.18"
gfx_device_gl = "0.16"
gfx_window_glutin = "0.30"
glutin = "0.20"
mint = "0.5"
nalgebra = { version = "0.18", features = ["mint"] }
winit = { version = "0.19", features = ["icon_loading"] }
