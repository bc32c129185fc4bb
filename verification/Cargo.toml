[package]
name = "teambot"
version = "0.1.0"
edition = "2021"
publish = false

[dependencies]
chrono = "*"
rand = "*"
urlencoding = "*"
serde = { version = "*", features = ["derive"] }
serde_json = "*"
