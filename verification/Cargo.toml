[package]
name = "bloom_engine"
version = "0.1.0"
edition = "2021"
publish = false

[dependencies]
ash = "0.37"
gpu-alloc = "0.6"
gpu-alloc-ash = "0.6"
