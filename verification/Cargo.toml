[package]
name = "app_atm"
version = "0.1.0"
edition = "2021"
publish = false

[dependencies]
serde = { version = "1", features = ["derive"] }
serde_json = "1"
tokio = { version = "1", features = ["rt", "net", "io-util", "time", "macros"] }
clap = { version = "4", features = ["derive"] }
