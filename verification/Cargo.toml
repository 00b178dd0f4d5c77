[package]
name = "sonictok"
version = "0.1.0"
edition = "2021"
publish = false

[dependencies]
base64 = "0.22"
thiserror = "2"
fancy-regex = "0.14"
pyo3 = "0.22"
