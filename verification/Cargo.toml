[package]
name = "tcconv"
version = "0.1.0"
edition = "2021"
publish = false

[dependencies]
chardetng = "0.1"
clap = "3"
encoding_rs = "0.8"
rust-ini = "*"
serde_json = "1"
serde_yaml = "0.9"
