[package]
name = "nrf52820_s140_firmware"
version = "0.1.0"
edition = "2021"
publish = false

[dependencies]
crc = "3"
heapless = "0.9"
embassy-sync = "*"
embassy-time = "*"
embassy-futures = "*"
embassy-executor = "*"
embassy-nrf = "*"
nrf-softdevice = "*"
atomic-pool = "*"
defmt = "*"
defmt-rtt = "*"
panic-probe = "*"

[dev-dependencies]
critical-section = { version = "1", features = ["std"] }
