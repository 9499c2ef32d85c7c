[package]
name = "camloop"
version = "0.1.0"
edition = "2021"
publish = false

[dependencies]
rppal = "*"
rscam = "*"
serde = { version = "*", features = ["derive"] }
serde_yaml = "*"
signal-hook = "*"
ureq = "*"
