[package]
name = "tpt_consumer"
version = "0.1.0"
edition = "2021"
publish = false

[dependencies]
anyhow = "=1.0.104"
chrono = { version = "=0.4.45", features = ["serde"] }
dotenvy = "=0.15.7"
futures = "=0.3.34"
lapin = "=2.5.5"
log = "=0.4.35"
log4rs = { version = "=1.4.0", default-features = false, features = ["config_parsing", "yaml_format", "console_appender", "file_appender", "pattern_encoder"] }
mongodb = "=2.8.2"
serde = { version = "=1.0.229", features = ["derive"] }
serde_json = "=1.0.154"
sqlx-oldapi = { version = "=0.6.59", features = ["mssql", "chrono", "runtime-tokio-rustls"] }
thiserror = "=1.0.69"
tokio = { version = "=1.54.1", features = ["full"] }
warp = { version = "=0.3.7", default-features = false }
