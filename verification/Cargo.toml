[package]
name = "pomc"
version = "0.1.0"
edition = "2021"
publish = false

[dependencies]
zbus = "=6.1.0"
clap = "=4.6.7"
async-std = { version = "=1.13.2", features = ["attributes"] }
