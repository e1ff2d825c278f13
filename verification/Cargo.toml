[package]
name = "pure_flow"
version = "0.1.0"
edition = "2021"
publish = false

[dependencies]
defmt = "*"
defmt-rtt = "*"
embassy-executor = "*"
embassy-nrf = { version = "*", features = ["nrf52840"] }
embassy-sync = "*"
embassy-time = "*"
embedded-hal-async = "*"
nrf-sdc = { version = "*", features = ["nrf52840", "peripheral"] }
panic-probe = "*"
static_cell = "*"
trouble-host = "*"
