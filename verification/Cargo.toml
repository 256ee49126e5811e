[package]
name = "vialtool"
version = "0.1.0"
edition = "2021"
publish = false

[dependencies]
argh = "=0.1.19"
hidapi = "=2.6.7"
rust-lzma = "*"
palette = "=0.7.7"
serde_json = "=1.0.151"
