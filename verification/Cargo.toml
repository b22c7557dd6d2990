[package]
name = "pull_feed"
version = "0.1.0"
edition = "2021"
publish = false

[dependencies]
rust_decimal = "*"
solana-program = "*"
