[package]
name = "nes_emulator"
version = "0.1.0"
edition = "2021"

[dependencies]
getopts = "0.2"
sdl2 = "*"
