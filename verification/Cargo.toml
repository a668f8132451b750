[package]
name = "retrieve"
version = "0.1.0"
edition = "2021"
publish = false

[dependencies]
clap = "2"
futures = "0.3"
reqwest = { version = "0.11", default-features = false }
