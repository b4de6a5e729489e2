[package]
name = "nvs_storage"
version = "0.1.0"
edition = "2021"
publish = false

[dependencies]
embedded-svc = "*"
esp-idf-sys = "*"
