[package]
name = "zellij_utils"
version = "0.34.0"
edition = "2021"
publish = false

[dependencies]
anyhow = "1"
backtrace = "0.3"
colored = "2"
log = "0.4"
miette = { version = "5", features = ["fancy"] }
serde = { version = "1", features = ["derive"] }
thiserror = "1"
url = { version = "2", features = ["serde"] }
