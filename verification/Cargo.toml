[package]
name = "gfx_window_sdl2"
version = "0.1.0"
edition = "2021"
publish = false

[dependencies]
gfx = "*"
gfx_device_gl = "*"
sdl2 = "*"
