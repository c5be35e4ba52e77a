[package]
name = "joystick-usbhid"
version = "0.1.0"
edition = "2021"
publish = false

[dependencies]
defmt = "=0.3.101"
defmt-rtt = "=0.4.2"
embassy-executor = { version = "=0.5.1", features = ["integrated-timers", "defmt"] }
embassy-stm32 = { version = "=0.1.0", features = ["defmt", "stm32h723zg", "time-driver-any", "exti", "memory-x"] }
embassy-time = { version = "=0.3.2", features = ["defmt", "defmt-timestamp-uptime", "tick-hz-32_768"] }
embassy-usb = { version = "=0.1.0", features = ["defmt"] }
panic-probe = { version = "=0.3.2", features = ["print-defmt"] }
static_cell = "=2.1.1"
usbd-hid = "=0.6.2"
