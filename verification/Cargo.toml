[package]
name = "thread_pool"
version = "0.1.0"
edition = "2021"
publish = false

[dependencies]
crossbeam-channel = "0.5"
log = "0.4"
