[package]
name = "covid19_uk_rs"
version = "0.1.0"
edition = "2021"
publish = false

[dependencies]
json = "0.12"
time = "0.2"
reqwest = { version = "0.11", features = ["blocking"] }
