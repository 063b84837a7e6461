[package]
name = "machinst"
version = "0.1.0"
edition = "2021"
publish = false

[dependencies]
toml = "*"
regalloc2 = "*"
anyhow = "*"
cap-std = "*"
cap-time-ext = "*"
