[package]
name = "openvino_backend"
version = "0.1.0"
edition = "2021"
publish = false

[dependencies]
float8 = "*"
half = "*"
openvino = { version = "*", features = ["runtime-linking"] }
thiserror = "*"
