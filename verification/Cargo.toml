[package]
name = "rosarium"
version = "0.1.0"
edition = "2021"
publish = false

[dependencies]
bdays = "*"
chrono = "*"
crossterm = "*"
ratatui = "*"
soloud = "*"
yaml-rust = "*"
linked-hash-map = "*"
rand = "*"
