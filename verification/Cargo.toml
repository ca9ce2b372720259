[package]
name = "meatnet"
version = "0.1.0"
edition = "2021"
publish = false

[dependencies]
crc = "3"
rand = "0.8"
range-set-blaze = "0.1"
anyhow = "1"
btleplug = "0.11"
clap = "4"
futures = "0.3"
tokio = { version = "1", features = ["macros", "rt-multi-thread", "sync", "time"] }
uuid = "1"
