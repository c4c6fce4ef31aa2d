[package]
name = "fall_alert"
version = "0.1.0"
edition = "2021"
publish = false

[dependencies]
microbit-v2 = "=0.16.0"
lsm303agr = "=1.1.0"
embedded-hal = "=1.0.0"
