[package]
name = "keychain_services"
version = "0.1.0"
edition = "2021"
publish = false

[dependencies]
core-foundation = "0.6"
failure = "0.1"
failure_derive = "0.1"
zeroize = "1"
