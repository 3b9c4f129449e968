[package]
name = "desktop"
version = "0.1.0"
edition = "2021"
publish = false

[dependencies]
serde_json = "=1.0.154"
time = { version = "=0.3.55", features = ["parsing", "formatting"] }
unicode-width = "=0.2.3"
tracing = "0.1"
