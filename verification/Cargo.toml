[package]
name = "fast_down_c"
version = "0.1.0"
edition = "2021"
publish = false

[dependencies]
fast-down-ffi = { version = "=0.4.2", features = ["file", "mem"] }
tokio = { version = "=1.54.1", features = ["rt-multi-thread", "macros"] }
tokio-util = "=0.7.20"
arc-swap = "=1.9.3"
parking_lot = "=0.12.5"
url = "=2.5.8"
bytes = "=1.12.1"
path_helper = { version = "0.1", features = ["sanitize"] }
