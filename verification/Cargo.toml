[package]
name = "peer_chat"
version = "0.1.0"
edition = "2021"
publish = false

[dependencies]
stun-rs = "*"
crossterm = "*"
eyre = "*"
