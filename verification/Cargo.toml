[package]
name = "colorless"
version = "0.1.0"
edition = "2021"
publish = false

[dependencies]
async-channel = "2"
async-lock = "3"
corosensei = "*"
crossbeam-utils = "0.8"
event-listener = "5"
futures-lite = "2"
pin-project-lite = "0.2"
unsend = "*"
