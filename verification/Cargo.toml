[package]
name = "gopherbadge"
version = "0.1.0"
edition = "2021"
publish = false

[dependencies]
accelerometer = "0.12"
cortex-m = "0.7"
defmt = "1"
defmt-rtt = "1"
embedded-graphics = "0.8"
embedded-hal = "1"
embedded-hal-bus = "0.3"
embedded-hal-compat = "0.13"
fixed = "1"
heapless = "0.8"
lis3dh = "0.4"
micromath = "2"
mipidsi = "0.9"
panic-probe = "1"
rand_chacha = { version = "0.9", default-features = false }
rand_core = { version = "0.9", default-features = false }
rp2040-boot2 = "0.3"
rp2040-hal = { version = "0.11", features = ["rt", "critical-section-impl"] }
smart-leds = "0.4"
tinybmp = "0.6"
usb-device = "0.3"
usbd-serial = "0.2"
ws2812-pio = "*"
