[package]
name = "rust_do_it"
version = "0.1.0"
edition = "2021"
publish = false

[dependencies]
crossbeam-channel = "0.5"
rand = "0.8"
log = "0.4"
toml = "0.8"
