[package]
name = "vantumpos"
version = "0.1.0"
edition = "2021"
publish = false

[dependencies]
time = "=0.3.55"
serde = { version = "=1.0.229", features = ["derive"] }
serde_json = "=1.0.154"
log = "=0.4.35"
rusqlite = { version = "=0.41.1", features = ["bundled", "functions"] }
