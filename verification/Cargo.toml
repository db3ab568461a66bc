[package]
name = "epd4in2b_v2"
version = "0.1.0"
edition = "2021"
publish = false

[dependencies]
embedded-hal = "1"
linux-embedded-hal = "0.4"
sysfs_gpio = "0.6"
