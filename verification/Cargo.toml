[package]
name = "sarek"
version = "0.1.0"
edition = "2021"
publish = false

[dependencies]
vks = "*"
libc = "*"
winit = "*"
