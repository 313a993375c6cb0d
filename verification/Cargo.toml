[package]
name = "sua-sdk"
version = "0.1.0"
edition = "2021"
publish = false
rust-version = "1.85"

[dependencies]
async-trait = "0.1"
semver = "1"
serde = { version = "1", features = ["derive"] }
serde_json = "1"
thiserror = "*"
tokio-util = "0.7"
