[package]
name = "sx126x"
version = "0.1.0"
edition = "2021"
publish = false

[dependencies]
critical-section = "1"
embedded-hal = "1.0"
embedded-hal-async = "1.0"
