[package]
name = "dronecan"
version = "0.1.0"
edition = "2021"
publish = false

[dependencies]
embedded-can = "*"
managed = "*"
