[package]
name = "iris"
version = "0.1.0"
edition = "2021"
publish = false

[dependencies]
rquickjs = "=0.12.2"
serde = { version = "=1.0.229", features = ["derive"] }
serde_json = "=1.0.154"
