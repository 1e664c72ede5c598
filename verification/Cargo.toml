[package]
name = "rust_csv"
version = "0.1.0"
edition = "2021"
publish = false

[dependencies]
csv = "1"
csv-core = "0.1"
pyo3 = "*"
serde_json = "1"
thiserror = "1"
