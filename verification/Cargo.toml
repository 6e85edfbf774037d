[package]
name = "vl53l0x"
version = "0.1.0"
edition = "2021"
publish = false

[dependencies]
embedded-hal = "0.2"
nb = "1"
