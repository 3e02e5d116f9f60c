[package]
name = "atomic_state"
version = "0.1.0"
edition = "2021"
publish = false

[dependencies]
log = "*"
tokio = { version = "*", features = ["rt", "sync", "time", "fs", "io-util"] }
serde = { version = "*", features = ["derive"] }
serde_json = "*"
toml = "*"
chrono = "*"
arc-swap = "*"
once_cell = "*"
futures = "*"
bytes = "*"
