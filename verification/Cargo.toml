[package]
name = "palette_swap"
version = "0.1.0"
edition = "2021"
publish = false

[dependencies]
base64 = "0.13"
image = "0.24"
