[package]
name = "async_basics"
version = "0.1.0"
edition = "2021"
publish = false

[dependencies]
async-task = "4"
flume = "0.11"
futures-lite = "2"
once_cell = "1"
tokio = { version = "1", features = ["rt-multi-thread", "macros", "fs", "io-util", "sync", "time"] }
