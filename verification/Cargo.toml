[package]
name = "analysis_bridge"
version = "0.1.0"
edition = "2021"
publish = false

[dependencies]
serde_json = "*"
serde = { version = "*", features = ["derive"] }
pyo3 = "*"
csv = "*"
