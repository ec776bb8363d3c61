[package]
name = "chip8"
version = "0.1.0"
edition = "2021"
publish = false

[dependencies]
rand = "=0.8.8"
sdl2 = { version = "=0.37.0", default-features = false }
show-image = { version = "0.13", default-features = false }
