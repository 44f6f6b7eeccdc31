[package]
name = "chip8"
version = "0.1.0"
edition = "2021"
publish = false

[dependencies]
anyhow = "1"
minifb = "0.28"
rand = "0.9"
rodio = { version = "0.21", default-features = false, features = ["playback"] }
