[package]
name = "esp_wireless"
version = "0.1.0"
edition = "2021"
publish = false

[dependencies]
anyhow = "*"
esp-idf-svc = "*"
toml-cfg = "*"
