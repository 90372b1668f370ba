[package]
name = "hypogaol"
version = "0.1.0"
edition = "2021"
publish = false

[dependencies]
clap = { version = "4", features = ["derive"] }
getrandom = "0.3"
serde_json = "1"
zeroize = "1"
