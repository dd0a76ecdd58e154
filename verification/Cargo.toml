[package]
name = "once_decode"
version = "0.1.0"
edition = "2021"
publish = false

[dependencies]
serde = { version = "=1.0.229", features = ["derive"] }
serde_json = { version = "=1.0.151", features = ["preserve_order"] }
serde_yaml = "=0.9.34"
toml = { version = "=0.8.23", features = ["preserve_order"] }
uuid = { version = "=1.27.0", features = ["v4", "serde"] }
