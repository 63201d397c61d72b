[package]
name = "sh0k0h3x"
version = "0.1.0"
edition = "2021"
publish = false

[dependencies]
anyhow = "1"
imgui = "*"
imgui-glow-renderer = "*"
imgui-sdl2-support = "*"
sdl2 = "*"
