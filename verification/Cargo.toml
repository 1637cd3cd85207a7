[package]
name = "sudoku-lib"
version = "0.1.0"
edition = "2021"
publish = false

[dependencies]
alloy-sol-types = "*"
axum = "*"
clap = { version = "4", features = ["derive"] }
dotenv = "0.15"
hex = "0.4"
serde = { version = "1", features = ["derive"] }
serde_json = "1"
tokio = { version = "1", features = ["full"] }
tower-http = { version = "*", features = ["cors"] }
tracing-subscriber = "0.3"
