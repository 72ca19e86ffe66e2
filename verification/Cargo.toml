[package]
name = "mozjpeg_verus"
version = "0.1.0"
edition = "2021"
publish = false

[dependencies]
arrayvec = "0.7"
imgref = "1"
mozjpeg-sys = "2"
