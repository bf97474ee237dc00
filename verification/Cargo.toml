[package]
name = "netmetrics"
version = "0.1.0"
edition = "2021"
publish = false

[dependencies]
pnet = "*"

[dev-dependencies]
serde_json = "*"
