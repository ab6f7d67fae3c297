[package]
name = "fedgate"
version = "0.1.0"
edition = "2021"
publish = false

[dependencies]
url = "2"
once_cell = "1"
serde_json = "1"
