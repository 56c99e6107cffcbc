[package]
name = "sample_app"
version = "0.1.0"
edition = "2021"
publish = false

[dependencies]
rand = "*"
chrono = "*"
async-trait = "*"
futures = "*"
