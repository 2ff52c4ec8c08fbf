[package]
name = "wapojs"
version = "0.1.0"
edition = "2021"
publish = false

[dependencies]
hyper = { version = "0.14", default-features = false, features = ["client", "http1", "tcp"] }
tokio = { version = "1", default-features = false, features = ["io-util", "rt", "macros"] }
bytes = "1"
anyhow = "1"
log = "0.4"
