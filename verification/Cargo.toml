[package]
name = "tower"
version = "1.1.5"
edition = "2021"
publish = false

[dependencies]
anyhow = "1"
chrono = "0.4"
log = "0.4"
semver = "1"
serde = { version = "1", features = ["derive"] }
serde_json = "1"
