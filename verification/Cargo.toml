[package]
name = "netstatus_api"
version = "0.1.0"
edition = "2021"
publish = false

[dependencies]
validator = "*"
governor = "*"
actix-web = { version = "4", default-features = false, features = ["macros", "compress-gzip"] }
tokio = { version = "1", features = ["full"] }
tracing = "0.1"
tracing-subscriber = "0.3"
serde = { version = "1", features = ["derive"] }
config = "*"
