[package]
name = "cqhttp"
version = "0.1.0"
edition = "2021"
publish = false

[dependencies]
log = "0.4"
reqwest = { version = "0.11", default-features = false }
rocket = "0.5"
serde = { version = "1", features = ["derive"] }
serde_json = "1"
thiserror = "1"
