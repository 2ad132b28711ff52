[package]
name = "vorago_reb1"
version = "0.1.0"
edition = "2021"
publish = false

[dependencies]
cortex-m = "=0.7.9"
dummy-pin = "=0.1.1"
embedded-hal = "=0.2.7"
max116xx-10bit = "=0.2.1"
va108xx-hal = "=0.5.2"
