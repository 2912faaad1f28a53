[package]
name = "rman"
version = "0.1.0"
edition = "2021"
publish = false

[dependencies]
zstd = "0.13"
reqwest = { version = "0.11", default-features = false, features = ["rustls-tls"] }
