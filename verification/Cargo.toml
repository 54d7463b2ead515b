[package]
name = "dbapi_core"
version = "0.1.0"
edition = "2021"
publish = false

[dependencies]
rorm = "*"
serde = { version = "*", features = ["derive"] }
toml = "*"
tokio = { version = "*", features = ["rt-multi-thread"] }
