[package]
name = "dactyl_rs"
version = "0.1.0"
edition = "2021"
publish = false

[dependencies]
usbd-hid = "=0.10.2"
embassy-sync = "=0.8.0"
critical-section = { version = "=1.2.0", features = ["std"] }
embassy-futures = "=0.1.2"
embassy-time = "=0.5.1"
embassy-usb = "=0.6.0"
embassy-executor = "=0.10.0"
embassy-nrf = { version = "=0.11.0", features = ["nrf52840", "time-driver-rtc1", "gpiote", "nfc-pins-as-gpio"] }
cortex-m = "=0.7.10"
cortex-m-rt = "=0.7.7"
defmt = "=1.2.0"
defmt-rtt = "=1.3.1"
panic-probe = { version = "=1.0.0", features = ["print-defmt"] }
static_cell = "=2.1.1"
nrf-sdc = { version = "=0.4.0", features = ["nrf52840", "peripheral", "central"] }
trouble-host = "=0.8.0"
