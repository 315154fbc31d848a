[package]
name = "adis_imu"
version = "0.1.0"
edition = "2021"
publish = false

[dependencies]
cobs = "=0.3.0"
heapless = "=0.7.17"
postcard = "=1.1.3"
serde = { version = "=1.0.229", features = ["derive"] }
serialport5 = { version = "=5.0.2", default-features = false }
thiserror = "=1.0.69"
clap = { version = "=4.6.7", features = ["derive"] }
chrono = "=0.4.45"
csv = "=1.4.0"
signal-hook = "=0.3.18"
uom = "=0.38.0"
embedded-hal = "=0.2.7"
cortex-m = "=0.7.10"
rp-pico = "=0.8.0"
usb-device = "=0.2.9"
usbd-serial = "=0.1.1"
defmt = "=0.3.101"
defmt-rtt = "=0.4.2"
panic-probe = "=0.3.2"
