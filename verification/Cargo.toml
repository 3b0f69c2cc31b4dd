[package]
name = "healthmaster"
version = "0.1.0"
edition = "2021"
publish = false

[dependencies]
chrono = { version = "=0.4.45", features = ["serde"] }
clap = { version = "=4.6.7", features = ["derive"] }
clickhouse = { version = "=0.15.3", features = ["chrono"] }
dotenv = "=0.15.0"
reqwest = "=0.12.28"
serde = { version = "=1.0.229", features = ["derive"] }
takecell = ">=0.1.0, <0.1.2"
teloxide = "=0.17.0"
tokio = { version = "=1.54.1", features = ["full"] }
toml = "=0.8.23"
