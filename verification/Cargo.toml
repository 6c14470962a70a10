[package]
name = "saelient"
version = "0.1.0"
edition = "2021"
publish = false

[dependencies]
embedded-can = "0.4"
managed = "0.8"
num = "0.4"
