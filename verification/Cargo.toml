[package]
name = "netif_bringup"
version = "0.1.0"
edition = "2021"
publish = false

[dependencies]
anyhow = "1"
esp-idf-hal = "0.44"
esp-idf-svc = "0.49"
heapless = "0.8"
log = "0.4"
toml-cfg = "*"
