[package]
name = "lru_cache_tester"
version = "0.1.0"
edition = "2021"
publish = false

[dependencies]
regex = "1"
