[package]
name = "evb"
version = "0.1.0"
edition = "2021"
publish = false

[dependencies]
serde = { version = "*", features = ["derive"] }
serde_yaml = "*"
polars = { version = "*", default-features = false, features = ["parquet"] }
