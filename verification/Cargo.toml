[package]
name = "ledswarm"
version = "0.1.0"
edition = "2021"
publish = false

[dependencies]
nanoid = "*"
serde = { version = "*", features = ["derive"] }
serde_json = "*"
flume = "*"
