[package]
name = "ddns_client"
version = "0.1.0"
edition = "2021"
publish = false

[dependencies]
chrono = "0.4"
clap = { version = "4", features = ["derive"] }
futures = "0.3"
reqwest = "0.12"
tokio = { version = "1", features = ["rt", "macros"] }
yaml-rust = "0.4"
