[package]
name = "clip"
version = "0.1.0"
edition = "2021"
publish = false

[dependencies]
fast-math = "0.1"
num-traits = "0.2"
wide = "0.7"
