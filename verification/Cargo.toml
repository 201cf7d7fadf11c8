[package]
name = "lmdb-helper"
version = "0.2.0"
edition = "2021"
publish = false

[dependencies]
clap = "2"
lmdb-zero = "0.4"

[dev-dependencies]
tempfile = "3"
