[package]
name = "paimon_iceberg"
version = "0.1.0"
edition = "2021"
publish = false

[dependencies]
anyhow = "=1.0.104"
apache-avro = "=0.22.0"
arrow = { version = "=59.3.2", default-features = false, features = ["pyarrow"] }
async-trait = "=0.1.92"
bytes = "=1.12.1"
clap = { version = "=4.6.7", features = ["derive"] }
datafusion = { version = "=55.2.0", default-features = false }
env_logger = "=0.11.11"
futures = "=0.3.34"
log = "=0.4.35"
pgwire = { version = "=0.42.1", default-features = false, features = ["server-api"] }
pyo3 = { version = "*", features = ["abi3-py39"] }
serde = { version = "=1.0.229", features = ["derive"] }
serde_json = { version = "=1.0.154", features = ["preserve_order"] }
tokio = { version = "=1.54.1", features = ["full"] }
uuid = { version = "=1.29.0", features = ["v4"] }
