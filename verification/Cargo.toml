[package]
name = "spkmeeting"
version = "0.1.0"
edition = "2021"
publish = false

[dependencies]
dashmap = "6"
serde_json = "1"
num_cpus = "1"
serde = { version = "1", features = ["derive"] }
toml = "0.8"
anyhow = "1"
tracing = "0.1"
tracing-subscriber = { version = "0.3", features = ["env-filter", "json"] }
actix = "0.13"
actix-web = "4"
actix-web-actors = "4"
actix-cors = "0.7"
uuid = { version = "1", features = ["v4"] }
tokio = { version = "1", features = ["sync"] }
