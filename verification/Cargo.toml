[package]
name = "strategy_execution_engine"
version = "0.1.0"
edition = "2021"
publish = false

[dependencies]
rand = "0.8"
serde = { version = "1", features = ["derive"] }
serde_json = "1"
thiserror = "1"
rdkafka = "*"
tokio = { version = "1", features = ["rt-multi-thread"] }
