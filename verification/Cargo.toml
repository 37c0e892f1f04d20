[package]
name = "wasi_shim"
version = "0.1.0"
edition = "2021"
publish = false

[dependencies]
anyhow = "*"
base64 = "*"
blockless-sdk = "*"
javy-plugin-api = "*"
rand = "*"
serde_json = "*"
