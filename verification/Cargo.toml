[package]
name = "hegel_session"
version = "0.1.0"
edition = "2021"
publish = false

[dependencies]
ciborium = "0.2"
