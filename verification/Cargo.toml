[package]
name = "nrf70"
version = "0.1.0"
edition = "2021"
publish = false

[dependencies]
embedded-hal = "1.0"
embedded-hal-async = "1.0"
embassy-time = "0.3"
embassy-net-driver-channel = "0.3"
defmt = "0.3"
