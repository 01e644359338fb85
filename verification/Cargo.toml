[package]
name = "system_actions"
version = "0.1.0"
edition = "2021"
publish = false

[dependencies]
brightness = "=0.8.0"
copypasta = "=0.10.2"
futures = "=0.3.34"
opener = "=0.9.0"
serde = { version = "=1.0.229", features = ["derive"] }
tokio = { version = "=1.53.2", features = ["sync"] }
