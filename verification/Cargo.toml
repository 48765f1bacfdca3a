[package]
name = "microvm"
version = "0.1.0"
edition = "2021"
publish = false

[dependencies]
linux-loader = "=0.14.0"
