[package]
name = "slop_streamer"
version = "0.1.0"
edition = "2021"
publish = false

[dependencies]
bytes = "*"
bytes-utils = "*"
erased-serde = "*"
futures = "*"
pin-project-lite = "*"
schemars = "*"
serde = { version = "*", features = ["derive"] }
serde_json = "*"
sseer = "*"
url = "*"
