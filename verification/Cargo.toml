[package]
name = "vim_clutch"
version = "0.1.0"
edition = "2021"
publish = false

[dependencies]
cortex-m = "=0.7.10"
cortex-m-rt = "=0.7.7"
defmt = "=0.3.101"
defmt-rtt = "=0.4.2"
embedded-hal = { version = "=0.2.7", features = ["unproven"] }
panic-probe = { version = "=0.3.2", features = ["print-defmt"] }
rp-pico = "=0.7.0"
usb-device = "=0.2.9"
usbd-hid = "=0.6.2"
