[package]
name = "trade_lifecycle"
version = "0.1.0"
edition = "2021"
publish = false

[dependencies]
chrono = "*"
iso_currency = "*"
tokio = { version = "*", features = ["rt-multi-thread", "macros", "sync"] }
tonic = "*"
uuid = { version = "*", features = ["v4"] }
