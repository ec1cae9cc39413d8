[package]
name = "parallel-future"
version = "0.1.0"
edition = "2021"
publish = false

[dependencies]
async-std = "1"
pin-project = "1"

[dev-dependencies]
futures-concurrency = "7"
