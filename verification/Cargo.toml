[package]
name = "huevos_api"
version = "0.1.0"
edition = "2021"
publish = false

[dependencies]
sea-orm = { version = "0.12", default-features = false, features = ["macros"] }
sea-query = "0.30"
