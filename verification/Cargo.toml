[package]
name = "analyzer"
version = "0.1.0"
edition = "2021"
publish = false

[dependencies]
actix = "=0.8.3"
actix-web = "=1.0.9"
chrono = "=0.4.19"
envconfig = "=0.5.1"
envconfig_derive = "=0.5.1"
failure = "=0.1.8"
futures = "=0.1.31"
reqwest = "=0.9.24"
serde = { version = "=1.0.229", features = ["derive"] }
serde_derive = "=1.0.229"
serde_json = "=1.0.154"
slog = "=2.8.2"
