[package]
name = "monty_policy"
version = "0.1.0"
edition = "2021"
publish = false

[dependencies]
cedar-policy = "4"
napi = "*"
napi-derive = "*"
pyo3 = "*"
