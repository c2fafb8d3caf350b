[package]
name = "reachable"
version = "0.1.0"
edition = "2021"
publish = false

[dependencies]
async-io = "2"
dns-lookup = "2"
futures = "0.3"
tokio = { version = "1", features = ["rt-multi-thread", "time", "sync", "macros"] }
