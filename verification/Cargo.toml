[package]
name = "atlas_local_lib_py"
version = "0.1.0"
edition = "2021"
publish = false

[dependencies]
atlas-local = "*"
chrono = "0.4"
pyo3 = { version = "*", features = ["chrono", "abi3-py310"] }
tokio = { version = "1", features = ["rt-multi-thread"] }
