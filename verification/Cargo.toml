[package]
name = "ocellus"
version = "0.1.0"
edition = "2021"
publish = false

[dependencies]
prometheus-client = "*"
serde = { version = "1", features = ["derive"] }
tokio = { version = "1", features = ["macros", "rt", "sync", "time"] }
