[package]
name = "drg"
version = "0.1.0"
edition = "2021"
publish = false

[dependencies]
serde_json = "*"
anyhow = "*"
log = "*"
simple_logger = "*"
clap = "*"
oauth2 = { version = "*", default-features = false }
reqwest = { version = "*", default-features = false, features = ["blocking"] }
