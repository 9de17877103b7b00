[package]
name = "gateway_worker"
version = "0.1.0"
edition = "2021"
publish = false

[dependencies]
async-trait = "=0.1.92"
bson = { version = "=2.15.0", features = ["chrono-0_4"] }
chrono = "=0.4.45"
config = { version = "=0.11.0", default-features = false }
dashmap = "=5.5.3"
date_time_parser = "=0.2.0"
deadpool-redis = { version = "=0.10.2", features = ["serde"] }
dotenv = "=0.15.0"
futures = "=0.3.34"
lapin = "=2.5.5"
meval = "=0.2.0"
mongodb = "=2.8.2"
rand = "=0.8.8"
regex = "=1.13.1"
sentry = { version = "=0.27.0", default-features = false }
serde = { version = "=1.0.229", features = ["derive"] }
serde_json = "=1.0.154"
tagscript = "*"
thiserror = "=1.0.69"
tokio = { version = "=1.54.1", features = ["full"] }
tracing = "=0.1.44"
tracing-subscriber = "=0.3.23"
twilight-cache-inmemory = "=0.10.4"
twilight-embed-builder = "=0.10.1"
twilight-http = "=0.10.3"
twilight-model = "=0.10.3"
uuid = { version = "=1.29.0", features = ["v4"] }
