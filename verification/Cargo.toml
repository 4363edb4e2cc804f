[package]
name = "concurrent_counters"
version = "0.1.0"
edition = "2021"

[dependencies]
rand = "=0.8.8"

[dev-dependencies]
crossbeam-utils = "0.8"
