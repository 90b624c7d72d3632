[package]
name = "devhub_web4"
version = "0.1.0"
edition = "2021"
publish = false

[dependencies]
base64 = "*"
html-escape = "*"
serde_json = "*"
