[package]
name = "simplematch"
version = "0.3.0"
edition = "2021"
publish = false

[dependencies]
clap = { version = "*", features = ["derive"] }
rand = "*"
regex = "*"
serde = { version = "*", features = ["derive"] }
serde_json = "*"
