[package]
name = "mediapedia"
version = "0.1.0"
edition = "2021"
publish = false

[dependencies]
keyring = "2"
serde_json = "1"
