[package]
name = "flipperzero"
version = "0.1.0"
edition = "2021"
publish = false

[dependencies]
ufmt = "0.2"
