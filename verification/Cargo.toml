[package]
name = "kolo"
version = "0.1.0"
edition = "2021"
publish = false

[dependencies]
ulid = "1"
serde_json = "1.0"
