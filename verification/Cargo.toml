[package]
name = "secret_manifest"
version = "0.1.0"
edition = "2021"
publish = false

[dependencies]
anyhow = "1"
base64-stream = "*"
clap = { version = "4", features = ["derive"] }
passwords = "*"
