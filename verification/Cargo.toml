[package]
name = "rocket_utilize"
version = "0.1.0"
edition = "2021"
publish = false

[dependencies]
anyhow = "1"
arc-swap = "1"
chrono = "0.4"
cookie = "0.18"
futures = "0.3"
jsonwebtoken = "9"
once_cell = "1"
rocket = { version = "0.5", features = ["json"] }
serde = { version = "1", features = ["derive"] }
serde_json = "1"
tera = { version = "1", default-features = false }
