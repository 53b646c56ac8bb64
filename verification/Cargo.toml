[package]
name = "aes_ecb_codec"
version = "0.1.0"
edition = "2021"
publish = false

[dependencies]
aes = "0.8"
base64 = "0.22"
hex = "0.4"
