[package]
name = "nuhound"
version = "0.1.0"
edition = "2021"
publish = false

[dependencies]
proc_nuhound = "*"

[dev-dependencies]
regex = "1"
