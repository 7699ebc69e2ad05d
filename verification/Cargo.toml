[package]
name = "single_pyo3"
version = "0.1.0"
edition = "2021"
publish = false

[dependencies]
anyhow = "*"
clap = "*"

[dev-dependencies]
toml = "*"
