[package]
name = "cpkg"
version = "0.1.0"
edition = "2021"
publish = false

[dependencies]
anyhow = "=1.0.104"
clap = { version = "=4.6.7", features = ["derive"] }
colored = "=3.1.1"
indoc = "=2.0.8"
nestify = "=0.3.3"
rustyline = "=19.0.0"
self_update = "=1.3.2"
serde = { version = "=1.0.229", features = ["derive"] }
tempfile = "=3.27.0"
toml = "=1.1.8"
walkdir = "=2.5.0"
which = "=8.0.6"
