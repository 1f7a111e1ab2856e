[package]
name = "mill_matter"
version = "0.1.0"
edition = "2021"
publish = false

[dependencies]
embassy-time = { version = "=0.5.1", features = ["std"] }
embassy-futures = "=0.1.2"
embassy-sync = "=0.8.0"
embassy-executor = "=0.10.0"
embassy-embedded-hal = "=0.6.0"
static_cell = "=2.1.1"
portable-atomic = "=1.15.0"
log = "=0.4.35"
serde = { version = "1", features = ["derive"] }
toml = "0.8"
esp-hal = { version = "=1.2.2", features = ["esp32c6", "unstable"] }
esp-alloc = "=0.11.0"
esp-backtrace = { version = "=0.20.0", features = ["esp32c6", "println"] }
esp-println = { version = "=0.18.0", features = ["esp32c6"] }
esp-bootloader-esp-idf = { version = "=0.6.0", features = ["esp32c6"] }
esp-rtos = { version = "=0.4.0", features = ["esp32c6"] }
esp-storage = { version = "=0.10.0", features = ["esp32c6"] }
esp-metadata-generated = "=0.5.3"
tinyrlibc = "=0.5.1"
rs-matter-embassy = "=0.0.0"
