[package]
name = "rendition_cache"
version = "0.1.0"
edition = "2021"
publish = false

[dependencies]
base64 = "=0.13.1"
gotham = { version = "=0.7.4", default-features = false, features = ["derive"] }
log = "=0.4.34"
serde = { version = "=1.0.229", features = ["derive"] }
serde_json = "=1.0.154"
