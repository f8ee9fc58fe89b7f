[package]
name = "juice_box"
version = "0.1.0"
edition = "2021"
publish = false

[dependencies]
cortex-m = "*"
cortex-m-rt = "*"
fugit = "*"
rtt-target = "*"
smart-leds = "*"
stm32f4xx-hal = { version = "*", features = ["stm32f407", "usb_fs"] }
usb-device = "*"
usbd-serial = "*"
ws2812-spi = "*"
