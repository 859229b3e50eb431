[package]
name = "blind_auction"
version = "0.1.0"
edition = "2021"
publish = false

[dependencies]
anchor-lang = "=0.32.1"
arcium-anchor = "=0.9.7"
