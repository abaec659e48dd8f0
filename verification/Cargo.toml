[package]
name = "interval_locator"
version = "0.1.0"
edition = "2021"
publish = false

[dependencies]
arrow = { version = "*", features = ["pyarrow"] }
pyo3 = "*"
numpy = "*"
