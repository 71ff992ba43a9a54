[package]
name = "aerolithdb"
version = "0.1.0"
edition = "2021"
publish = false

[dependencies]
csv = "=1.4.0"
flate2 = "=1.1.10"
anyhow = "=1.0.104"
clap = { version = "=4.6.7", features = ["derive"] }
tokio = { version = "=1.54.1", features = ["full"] }
reqwest = { version = "=0.12.28", default-features = false, features = ["json"] }
serde = { version = "=1.0.229", features = ["derive"] }
serde_json = "=1.0.154"
serde_yaml = "=0.9.34"
toml = "=0.8.23"
chrono = { version = "=0.4.45", features = ["serde"] }
uuid = { version = "=1.29.1", features = ["v4", "serde"] }
tracing = "=0.1.44"
tracing-subscriber = { version = "=0.3.23", features = ["env-filter"] }
futures = "=0.3.34"
ratatui = "=0.29.0"
crossterm = "=0.28.1"
rand = "=0.8.8"
num_cpus = "=1.17.0"
lazy_static = "=1.5.1"
parquet = { version = "*", default-features = false, features = ["json", "snap"] }
bytes = "1"
