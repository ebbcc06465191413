[package]
name = "ex_iceberg"
version = "0.1.0"
edition = "2021"
publish = false

[dependencies]
iceberg = "*"
iceberg-catalog-rest = "*"
rustler = "*"
serde_json = "*"
tokio = { version = "1", features = ["rt-multi-thread"] }
