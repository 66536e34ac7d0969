[package]
name = "sen5x"
version = "0.1.0"
edition = "2021"

[dependencies]
embedded-hal = "1.0"

[dev-dependencies]
embedded-hal-mock = "*"
