[package]
name = "wszl"
version = "0.3.0"
edition = "2021"
publish = false

[dependencies]
clap = "*"
log = "*"
log4rs = "*"
reqwest = { version = "*", default-features = false, features = ["blocking"] }
serde = { version = "*", features = ["derive"] }
serde_json = "*"
serde_yaml = "*"
