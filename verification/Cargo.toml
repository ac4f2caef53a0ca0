[package]
name = "geonorm"
version = "0.1.0"
edition = "2021"
publish = false

[dependencies]
maxminddb = "0.23"
