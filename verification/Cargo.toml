[package]
name = "ask_bayes"
version = "0.1.0"
edition = "2021"
publish = false

[dependencies]
anyhow = "1"
clap = { version = "3", features = ["derive"] }
dialoguer = "0.10"
dirs = "4"
log = "0.4"
prettytable-rs = "0.10"
serde_json = "1"
simplelog = "0.12"
sled = "0.34"
