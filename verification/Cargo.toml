[package]
name = "r0t0blocks"
version = "0.1.0"
edition = "2021"
publish = false

[dependencies]
fastrand = "1"
sdl2 = "0.35"
