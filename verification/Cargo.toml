[package]
name = "valet_boy"
version = "0.1.0"
edition = "2021"
publish = false

[dependencies]
linux-futex = "=1.0.0"
