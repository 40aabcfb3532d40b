[package]
name = "alazar"
version = "0.1.0"
edition = "2021"
publish = false

[dependencies]
devela = { version = "=0.16.0", features = ["convert"] }
rand_core = "=0.6.4"
