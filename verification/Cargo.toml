[package]
name = "anime_relay"
version = "0.1.0"
edition = "2021"
publish = false

[dependencies]
rocket = "0.5"
reqwest = { version = "0.11", default-features = false, features = ["json"] }
serde = { version = "1", features = ["derive"] }
chrono = { version = "0.4", features = ["serde"] }
