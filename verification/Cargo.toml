[package]
name = "codictate"
version = "0.1.0"
edition = "2021"
publish = false

[dependencies]
regex = "=1.13.1"
tracing = "=0.1.44"
chrono = "=0.4.45"
serde_json = "1"
