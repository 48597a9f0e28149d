[package]
name = "pricevista"
version = "0.1.0"
edition = "2021"
publish = false

[dependencies]
axum = "=0.7.9"
brotli = { version = "=9.0.0", features = ["portable-float"] }
chrono = { version = "=0.4.45", features = ["serde"] }
clap = { version = "=4.6.7", features = ["derive", "env"] }
dotenvy = "=0.15.7"
lazy_static = "=1.5.1"
reqwest = { version = "=0.12.28", features = ["json"] }
rust_decimal = "=1.43.0"
serde = { version = "=1.0.229", features = ["derive"] }
serde_json = "=1.0.154"
sibyl = { version = "=0.7.1", features = ["nonblocking", "tokio"] }
tokio = { version = "=1.54.1", features = ["full"] }
