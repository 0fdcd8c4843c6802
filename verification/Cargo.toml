[package]
name = "joybus_gc"
version = "0.1.0"
edition = "2021"
publish = false

[dependencies]
cortex-m = "=0.7.9"
embedded-hal = "=1.0.0"
pio = "=0.3.0"
rp2040-hal = "=0.12.0"
