[package]
name = "tanzu_ai"
version = "0.1.0"
edition = "2021"
publish = false

[dependencies]
serde_json = "1"
anyhow = "1"
futures = "0.3"
reqwest = { version = "0.12", default-features = false }
