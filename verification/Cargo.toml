[package]
name = "barn"
version = "0.1.0"
edition = "2021"
publish = false

[dependencies]
actix-web = "4"
actix-web-httpauth = "*"
anyhow = "1"
bytes = "1"
clap = { version = "4", features = ["derive"] }
colored = "2"
dirs = "*"
futures = "0.3"
lazy_static = "1"
regex = "1"
serde = { version = "1", features = ["derive"] }
tokio = { version = "1", features = ["process"] }
tokio-util = { version = "0.7", features = ["io"] }
toml = "*"
