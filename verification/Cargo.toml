[package]
name = "cetkaik_kiaak"
version = "0.1.0"
edition = "2021"
publish = false

[dependencies]
cetkaik_core = "=0.5.6"
