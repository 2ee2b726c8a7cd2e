[package]
name = "resilient_fetch"
version = "0.1.0"
edition = "2021"
publish = false

[dependencies]
backoff = "0.4"
reqwest = { version = "0.11", default-features = false, features = ["blocking"] }
thiserror = "1"
