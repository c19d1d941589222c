[package]
name = "ckb_mode_toggle"
version = "0.1.0"
edition = "2021"
publish = false

[dependencies]
dirs = "*"
