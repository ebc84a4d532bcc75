[package]
name = "aragog"
version = "0.1.0"
edition = "2021"
publish = false

[dependencies]
arangors = "*"
serde = "*"
serde_json = "*"
