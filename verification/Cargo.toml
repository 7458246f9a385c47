[package]
name = "blower"
version = "0.1.0"
edition = "2021"
publish = false

[dependencies]
defmt-rtt = "=1.3.1"
embassy-executor = "=0.9.1"
embassy-futures = "=0.1.2"
embassy-time = "=0.5.1"
embassy-usb-logger = "=0.6.0"
log = "=0.4.34"
panic-probe = "=1.0.0"
