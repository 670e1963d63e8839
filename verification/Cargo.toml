[package]
name = "screen_zoom"
version = "0.1.0"
edition = "2021"
publish = false

[dependencies]
gl = "=0.14.0"
glam = "=0.30.10"
glfw = { version = "=0.59.0", default-features = false, features = ["raw-window-handle-v0-6"] }
stb_image = "=0.3.0"
x11 = { version = "=2.21.0", features = ["xlib"] }
