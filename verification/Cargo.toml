[package]
name = "retro_relay"
version = "0.1.0"
edition = "2021"
publish = false

[dependencies]
rust-libretro-sys = "*"
sdl3 = "*"
