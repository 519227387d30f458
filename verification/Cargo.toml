[package]
name = "lib348"
version = "0.1.0"
edition = "2021"
publish = false

[dependencies]
cortex-m = "=0.7.10"
embassy-executor = { version = "=0.9.1", features = ["arch-std", "executor-thread"] }
embassy-time = { version = "=0.5.1", features = ["std"] }
embassy-sync = "=0.8.0"
rp2040-boot2 = "=0.3.0"
embassy-rp = { version = "=0.10.0", features = ["rp2040", "time-driver", "critical-section-impl"] }
cyw43 = "=0.7.0"
cyw43-pio = "=0.10.0"
embassy-net = { version = "=0.9.1", features = ["dhcpv4", "tcp", "dns", "proto-ipv4", "medium-ethernet"] }
reqwless = "=0.13.0"
static_cell = "=2.1.1"
