[package]
name = "swish"
version = "0.1.0"
edition = "2021"
publish = false

[dependencies]
base64 = "*"
clap = { version = "*", features = ["derive"] }
curl = "*"
indicatif = "*"
log = "*"
serde_json = "*"
simple_logger = "*"
