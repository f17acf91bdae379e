[package]
name = "credvault"
version = "0.1.0"
edition = "2021"
publish = false

[dependencies]
base64 = "0.22.1"
ring = "0.17.14"
serde_json = "1"
