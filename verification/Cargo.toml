[package]
name = "lobby_core"
version = "0.1.0"
edition = "2021"
publish = false

[dependencies]
spacetimedb = "=1.12.0"
