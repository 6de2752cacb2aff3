[package]
name = "co2mon"
version = "0.1.0"
edition = "2021"
publish = false

[dependencies]
embedded-graphics = "=0.8.2"
ee895 = "=0.1.0"
st7735-lcd = "=0.10.0"
embedded-hal = "=0.2.7"
