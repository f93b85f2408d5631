[package]
name = "servercore"
version = "0.1.0"
edition = "2021"
publish = false

[dependencies]
async-trait = "0.1"
dashmap = "6.1"
jsonc-parser = { version = "0.26", features = ["serde"] }
log = "0.4"
serde = { version = "1", features = ["derive"] }
serde_json = "1"
sqlx = { version = "0.8", default-features = false, features = ["sqlite", "runtime-tokio", "migrate"] }
tokio = { version = "1", features = ["fs", "sync"] }
