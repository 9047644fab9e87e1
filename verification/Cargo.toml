[package]
name = "moisture_sensor"
version = "0.1.0"
edition = "2021"
publish = false

[dependencies]
byteorder = "1"
embedded-hal = "1"
linux-embedded-hal = "*"
chrono = "0.4"
env_logger = "*"

[dev-dependencies]
embedded-hal-mock = "*"
