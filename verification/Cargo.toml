[package]
name = "mainboard"
version = "0.1.0"
edition = "2021"
publish = false

[dependencies]
cortex-m = "=0.7.9"
display-interface = "=0.4.1"
embedded-hal = "=0.2.7"
mipidsi = "=0.6.0"
stm32f7 = { version = "=0.15.1", features = ["stm32f730"] }
stm32h7 = { version = "=0.15.1", features = ["stm32h735"] }
usbd-dfu = "=0.2.0"
