[package]
name = "current_song"
version = "0.1.0"
edition = "2021"
publish = false

[dependencies]
chrono = { version = "0.4", features = ["serde"] }
dirs = "5"
serde = { version = "1", features = ["derive"] }
serde_json = "1"
toml = "0.8"
tokio = { version = "1", features = ["rt-multi-thread", "macros", "process", "sync", "time"] }
actix = "0.13"
actix-web = { version = "4", default-features = false, features = ["macros"] }
tracing = "0.1"
thiserror = "1"
lazy_static = "1"
tap = "1"
