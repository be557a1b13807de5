[package]
name = "ddns_notify"
version = "0.1.0"
edition = "2021"
publish = false

[dependencies]
reqwest = "0.12"
serde = { version = "1", features = ["derive"] }
tokio = { version = "1", features = ["rt"] }
toml = { version = "0.8", features = ["preserve_order"] }
