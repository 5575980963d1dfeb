[package]
name = "bluos_api"
version = "0.1.0"
edition = "2021"
publish = false

[dependencies]
reqwest = { version = "=0.13.5", default-features = false, features = ["blocking"] }
thiserror = "=2.0.21"
xml = "=1.4.0"
