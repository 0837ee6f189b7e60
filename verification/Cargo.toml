[package]
name = "python3_dll_a"
version = "0.1.0"
edition = "2021"
publish = false

[dependencies]
cc = "*"
