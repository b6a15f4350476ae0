[package]
name = "pwnenv"
version = "0.1.0"
edition = "2021"
publish = false

[dependencies]
anyhow = "1"
clap = { version = "4", features = ["derive"] }
dirs = "*"
fs_extra = "1"
nix = { version = "*", features = ["process"] }
serde = { version = "1", features = ["derive"] }
serde_yaml = "*"
