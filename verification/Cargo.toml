[package]
name = "arkv"
version = "0.1.0"
edition = "2021"
publish = false

[dependencies]
anyhow = "*"
clap = { version = "*", features = ["derive"] }
dialoguer = "*"
dirs = "*"
indicatif = "*"
libc = "*"
serde = { version = "*", features = ["derive"] }
ssh2 = "*"
toml = "*"
walkdir = "*"
