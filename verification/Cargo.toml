[package]
name = "fedcore"
version = "0.1.0"
edition = "2021"
publish = false

[dependencies]
anyhow = "1"
clap = { version = "4", features = ["derive"] }
colored = "*"
dialoguer = "*"
flate2 = "1"
indicatif = "*"
rayon = "1"
regex = "1"
serde = { version = "1", features = ["derive"] }
serde_json = "1"
serde-saphyr = "*"
serde_yaml = "*"
similar = "2"
tar = "*"
tempfile = "3"
walkdir = "2"
