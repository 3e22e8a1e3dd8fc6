[package]
name = "review-protocol"
version = "0.19.0"
edition = "2021"
publish = false

[dependencies]
anyhow = "1"
async-trait = "0.1"
bincode = { version = "2", features = ["serde"] }
quinn = { version = "0.11", default-features = false }
semver = "1"
serde = { version = "1", features = ["derive"] }
thiserror = "2"
tokio = { version = "1", features = ["io-util"] }
