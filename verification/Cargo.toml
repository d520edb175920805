[package]
name = "plex_core"
version = "0.1.0"
edition = "2021"
publish = false

[dependencies]
keyring = { version = "=3.6.3", default-features = false }
reqwest = { version = "=0.13.5", default-features = false, features = ["blocking"] }
