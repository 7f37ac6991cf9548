[package]
name = "ollama_adaptor"
version = "0.1.0"
edition = "2021"
publish = false

[dependencies]
endpoints = "0.2"
http = "=1.5.0"
rmp-serde = "=1.3.1"
serde = { version = "=1.0.229", features = ["derive"] }
serde_json = "=1.0.154"
uuid = { version = "=1.29.0", features = ["v4"] }
