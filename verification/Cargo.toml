[package]
name = "scoreboard"
version = "0.1.0"
edition = "2021"
publish = false

[dependencies]
pebble-rust = "=0.1.0"
