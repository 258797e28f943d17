[package]
name = "dremio-rs"
version = "0.1.0"
edition = "2021"
publish = false

[dependencies]
arrow = { version = "=60.0.0", default-features = false }
arrow-flight = { version = "=60.0.0", features = ["flight-sql"] }
futures = "=0.3.34"
parquet = { version = "=60.0.0", default-features = false, features = ["arrow"] }
thiserror = "=2.0.21"
tonic = "=0.14.6"

[dev-dependencies]
bytes = "=1.12.1"
tokio = { version = "=1.54.1", features = ["rt"] }
