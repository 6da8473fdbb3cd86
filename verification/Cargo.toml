[package]
name = "bitaxe-birds-raw"
version = "0.1.0"
edition = "2021"
publish = false

[dependencies]
embassy-executor = { version = "=0.7.0", features = ["arch-std", "executor-thread"] }
embassy-futures = "=0.1.2"
embassy-rp = { version = "=0.3.1", features = ["rp2040"] }
embassy-sync = "=0.6.2"
embassy-time = "=0.4.0"
embassy-usb = "=0.4.0"
fixed = "=1.31.0"
heapless = "=0.8.0"
hex = { version = "=0.4.3", default-features = false }
pio = "=0.2.1"
pio-proc = "=0.2.2"
portable-atomic = "=1.15.0"
static_cell = "=2.1.1"
