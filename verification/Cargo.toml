[package]
name = "ariadne"
version = "0.1.0"
edition = "2021"
publish = false

[dependencies]
crossbeam = "=0.8.5"
parse_duration = "=2.1.1"
actix-web = "=4.15.0"
actix-rt = "*"
actix-cors = "*"
anyhow = "*"
async-trait = "*"
chrono = "*"
chrono-tz = "0.5"
clickhouse-rs = "=0.1.21"
config = "=0.15.27"
env_logger = "*"
futures = "0.1"
futures-util = "*"
log = "*"
maxminddb = "=0.32.0"
serde = { version = "*", features = ["derive"] }
serde_json = "*"
thiserror = "*"
uuid = { version = "=1.27.0", features = ["v4"] }
