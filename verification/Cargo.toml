[package]
name = "sota"
version = "0.1.0"
edition = "2021"
publish = false

[dependencies]
rustc-serialize = "0.3"
rust-crypto = "0.2"
time = "0.1"
tempfile = "*"
getopts = "*"
