[package]
name = "bears"
version = "0.1.0"
edition = "2021"
publish = false

[dependencies]
bincode = "1.3"
dotenvy = "0.15"
serde = { version = "1", features = ["derive"] }
serde_json = "1"
tracing = "0.1"
