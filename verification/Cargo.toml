[package]
name = "render_core"
version = "0.1.0"
edition = "2021"
publish = false

[dependencies]
num = "0.4"
ash = "0.37"
ash-window = "0.12"
raw-window-handle = "0.5"
winit = "0.28"
tobj = "3.2"
cgmath = "0.18"
memoffset = "0.9"
