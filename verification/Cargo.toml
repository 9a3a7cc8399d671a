[package]
name = "tch_python"
version = "0.1.0"
edition = "2021"
publish = false

[dependencies]
pyo3 = { version = "0.21", default-features = false, features = ["macros"] }
torch-sys = { version = "*", features = ["python-extension"] }
