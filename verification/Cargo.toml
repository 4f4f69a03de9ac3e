[package]
name = "esp_hal_dhcp_server"
version = "0.1.0"
edition = "2021"
publish = false

[dependencies]
edge-dhcp = { version = "*", default-features = false }
heapless = "0.8"
embassy-time = { version = "*", features = ["std"] }
embassy-net = { version = "*", features = ["udp", "proto-ipv4", "medium-ethernet"] }
embassy-sync = "*"
embassy-futures = "*"
log = "*"
