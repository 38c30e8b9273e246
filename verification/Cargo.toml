[package]
name = "openfoodfacts"
version = "0.1.0"
edition = "2021"
publish = false

[dependencies]
url = "2"
reqwest = { version = "0.11", default-features = false, features = ["blocking", "rustls-tls"] }
