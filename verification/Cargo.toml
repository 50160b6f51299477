[package]
name = "daemon"
version = "0.1.0"
edition = "2021"
publish = false

[dependencies]
regex = "1"
tokio = { version = "1", features = ["fs", "process", "io-util", "rt", "macros"] }
anyhow = "1"
async-trait = "0.1"
log = "0.4"
thiserror = "1"
