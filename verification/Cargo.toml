[package]
name = "awc_control"
version = "0.1.0"
edition = "2021"
publish = false

[dependencies]
chrono = "*"
clap = { version = "*", features = ["derive"] }
dirs = "*"
json5 = "*"
serde = { version = "*", features = ["derive"] }
