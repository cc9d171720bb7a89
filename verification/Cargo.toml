[package]
name = "currencyapi"
version = "0.1.0"
edition = "2021"
publish = false

[dependencies]
url = "2"
serde_json = "1"
reqwest = { version = "*", default-features = false }
