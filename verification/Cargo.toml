[package]
name = "pyarc2"
version = "0.1.0"
edition = "2021"
publish = false

[dependencies]
libarc2 = "*"
pyo3 = "*"
numpy = "*"
ndarray = "*"
