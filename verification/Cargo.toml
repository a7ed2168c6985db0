[package]
name = "write_monitor"
version = "0.1.0"
edition = "2021"

[dependencies]
futures = "0.3"
tokio = "1"
