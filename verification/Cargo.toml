[package]
name = "arbitrage_core"
version = "0.1.0"
edition = "2021"
publish = false

[dependencies]
rust_decimal = "*"
uuid = { version = "*", features = ["v4"] }
serde = { version = "*", features = ["derive"] }
serde_json = "*"
thiserror = "*"
tokio = { version = "*", features = ["rt-multi-thread", "macros", "sync", "net", "time"] }
axum = "*"
chrono = { version = "*", features = ["serde"] }
toml = "*"
num_cpus = "*"
