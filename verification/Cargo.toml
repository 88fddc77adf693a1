[package]
name = "bittide"
version = "0.1.0"
edition = "2021"
publish = false

[dependencies]
fixed = "1"
heapless = "0.8"
