[package]
name = "seahasher"
version = "0.1.0"
edition = "2021"
publish = false

[dependencies]
pyo3 = { version = "=0.20.3", features = ["extension-module"] }

[dev-dependencies]
seahash = "=4.1.0"
