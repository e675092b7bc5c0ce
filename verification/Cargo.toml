[package]
name = "rimpub"
version = "0.1.0"
edition = "2021"
publish = false

[dependencies]
anyhow = "*"
clap = { version = "4", features = ["derive"] }
dirs = "*"
encoding_rs = "*"
ignore = "*"
log = "*"
serde = { version = "1", features = ["derive"] }
toml = "*"
winreg = "*"
