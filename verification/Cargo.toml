[package]
name = "snet"
version = "0.1.0"
edition = "2021"
publish = false

[dependencies]
score = "*"
time = "0.1"
