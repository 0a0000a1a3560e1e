[package]
name = "gd32e2_hal"
version = "0.1.0"
edition = "2021"
publish = false

[dependencies]
gd32e2 = "*"
cortex-m = "0.7"
embedded-hal = "1"
embedded-hal-nb = "1"
embedded-io = "*"
nb = "1"
