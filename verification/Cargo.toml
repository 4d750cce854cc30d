[package]
name = "sophia_bench"
version = "0.1.0"
edition = "2021"
publish = false

[dependencies]
sophia = "*"
time = "0.1"
