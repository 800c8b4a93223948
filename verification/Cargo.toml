[package]
name = "chaos_game"
version = "0.1.0"
edition = "2021"
publish = false

[dependencies]
rand = "*"
ggez = "=0.5.1"
typed-builder = "*"
