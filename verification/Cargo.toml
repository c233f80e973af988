[package]
name = "multi_log_reader"
version = "0.1.0"
edition = "2021"
publish = false

[dependencies]
regex = "1"
num-bigint = "0.4"
clap = { version = "4", features = ["derive"] }
colored = "2"
