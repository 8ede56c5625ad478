[package]
name = "lindblad_migrate"
version = "0.1.0"
edition = "2021"
publish = false

[dependencies]
struqture = "=1.14.0"
qoqo_calculator = "=1.9.1"
num-complex = "=0.4.6"
serde_json = "=1.0.154"
bincode = "=1.3.3"
pyo3 = "=0.30.1"
