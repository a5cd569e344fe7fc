[package]
name = "tabiew"
version = "0.1.0"
edition = "2021"
publish = false

[dependencies]
polars = { version = "=0.41.3", default-features = false, features = ["lazy", "csv", "parquet", "json"] }
polars-sql = "=0.41.3"
crossterm = "=0.29.0"
