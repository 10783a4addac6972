[package]
name = "t2screenshot"
version = "0.1.0"
edition = "2021"
publish = false

[dependencies]
base64 = "=0.22.1"
image = "=0.25.10"
serde = { version = "=1.0.229", features = ["derive"] }
chrono = "=0.4.45"
dirs = "=7.0.0"
xcap = "=0.9.8"
