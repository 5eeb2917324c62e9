[package]
name = "tub"
version = "0.1.0"
edition = "2021"
publish = false

[dependencies]
crossbeam-queue = "*"
tokio = { version = "*", features = ["sync", "rt-multi-thread", "macros", "time"] }
