[package]
name = "crdt_bench"
version = "0.1.0"
edition = "2021"
publish = false

[dependencies]
rand = "0.8"
indicatif = "0.17"
