[package]
name = "log_facade"
version = "0.1.0"
edition = "2021"
publish = false

[dependencies]
serde = "=1.0.229"
erased-serde = "=0.4.10"
sval = "=2.22.0"

[dev-dependencies]
serde_json = "1"
