[package]
name = "athenos"
version = "0.1.0"
edition = "2021"
publish = false

[dependencies]
chrono = "0.4"
rand = "0.8"
serde = { version = "1", features = ["derive"] }
sodiumoxide = "0.2"
tracing = "0.1"
tracing-subscriber = "0.3"
