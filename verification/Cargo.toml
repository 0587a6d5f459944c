[package]
name = "async-scope"
version = "0.1.0"
edition = "2021"
publish = false

[dependencies]
atomic-waker = "1"
futures-channel = "0.3"
futures-core = "0.3"
futures-util = "0.3"
pin-project-lite = "0.2"
