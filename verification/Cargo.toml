[package]
name = "stream_latency"
version = "0.1.0"
edition = "2021"
publish = false

[dependencies]
chrono = "0.4"
tokio = { version = "1", features = ["sync", "time", "rt-multi-thread", "macros"] }
tonic = { version = "*", default-features = false }
clap = { version = "*", features = ["derive"] }
