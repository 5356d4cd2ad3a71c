[package]
name = "deriverse"
version = "0.1.0"
edition = "2021"
publish = false

[dependencies]
anchor-lang = "0.31"
arrayref = "0.3"
solana-sdk = "2.2"
