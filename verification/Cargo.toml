[package]
name = "dataports"
version = "0.1.0"
edition = "2021"
publish = false

[dependencies]
spin = { version = "*", features = ["lock_api"] }
lock_api = { version = "*", features = ["arc_lock"] }
