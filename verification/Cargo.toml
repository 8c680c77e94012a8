[package]
name = "onchain_core"
version = "0.1.0"
edition = "2021"
publish = false

[dependencies]
anchor-lang = "=0.31.2"
url = "=2.5.8"
