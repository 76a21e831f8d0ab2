[package]
name = "eoe"
version = "0.1.0"
edition = "2021"
publish = false

[dependencies]
anyhow = "1"
owo-colors = { version = "4", features = ["supports-colors"] }
