[package]
name = "orengine_sync"
version = "0.1.0"
edition = "2021"
publish = false

[dependencies]
ahash = "0.8"
crossbeam = "0.8"
