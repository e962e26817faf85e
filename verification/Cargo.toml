[package]
name = "esp_scaffold"
version = "0.1.0"
edition = "2021"
publish = false

[dependencies]
anyhow = "1"
dialoguer = "0.10"
tempfile = "3"
ureq = "2"
zip = { version = "0.6", default-features = false, features = ["deflate"] }
