[package]
name = "rctop"
version = "0.1.0"
edition = "2021"
publish = false

[dependencies]
crossterm = "*"
ctrlc = "*"
futures = "*"
systemstat = "*"
