[package]
name = "dualcore_log"
version = "0.1.0"
edition = "2021"
publish = false

[dependencies]
heapless = "=0.8.0"
embassy-sync = "=0.6.2"
embassy-executor = { version = "=0.6.3", features = ["arch-std", "executor-thread", "integrated-timers"] }
embassy-time = "=0.3.2"
embassy-usb = "=0.3.0"
embassy-futures = "=0.1.2"
static_cell = "=2.1.1"
defmt = "=0.3.101"
defmt-rtt = "=0.4.2"
panic-probe = "=0.3.2"
usbd-hid = "=0.8.2"

[dev-dependencies]
critical-section = { version = "=1.2.0", features = ["std"] }
