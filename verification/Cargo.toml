[package]
name = "imgui_opengl"
version = "0.1.0"
edition = "2021"
publish = false

[dependencies]
glow = "0.4"
imgui = "0.2"
