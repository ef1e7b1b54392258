[package]
name = "pcsv"
version = "0.1.0"
edition = "2021"
publish = false

[dependencies]
clap = { version = "*", features = ["derive"] }
comfy-table = "*"
crossterm = "*"
csv = "*"
regex = "*"
serde = { version = "*", features = ["derive"] }
toml = "*"
