[package]
name = "sfo_log"
version = "0.1.0"
edition = "2021"
publish = false

[dependencies]
flexi_logger = { version = "*", default-features = false }
tracing = { version = "0.1", features = ["log"] }
