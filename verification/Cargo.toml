[package]
name = "consciousness_kernel"
version = "0.1.0"
edition = "2021"
publish = false

[dependencies]
log = "0.4"
pyo3 = { version = "0.20", features = ["abi3-py38"] }
serde = { version = "1", features = ["derive"] }
thiserror = "1"
