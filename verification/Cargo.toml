[package]
name = "visit"
version = "0.1.0"
edition = "2021"
publish = false

[dependencies]
serde = "1"
erased-serde = "0.4"

[dev-dependencies]
serde_json = "1"
