[package]
name = "term39"
version = "0.1.0"
edition = "2021"
publish = false

[dependencies]
sha2 = "=0.10.9"
flate2 = "=1.1.10"
vte = "=0.15.0"
crossterm = "=0.28.1"
serde = { version = "=1.0.229", features = ["derive"] }
serde_json = "=1.0.154"
toml = "=0.8.23"
dirs = "=5.0.1"
directories = "=5.0.1"
clap = { version = "=4.6.7", features = ["derive"] }
chrono = "=0.4.45"
libc = "=0.2.191"
