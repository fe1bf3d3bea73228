[package]
name = "esp_slint_boards"
version = "0.1.0"
edition = "2021"
publish = false

[dependencies]
eeprom24x = "0.7"
embassy-executor = "0.9"
embassy-sync = "0.7"
embassy-time = { version = "=0.5.1", features = ["tick-hz-1_000_000"] }
embedded-graphics-core = "=0.4.1"
embedded-graphics-framebuf = "0.5"
embedded-hal = "1.0"
embedded-hal-bus = "0.3"
esp-alloc = "0.9"
esp-backtrace = { version = "0.18", features = ["esp32s3", "println"] }
esp-bootloader-esp-idf = { version = "0.4", features = ["esp32s3"] }
esp-hal = { version = "~1.0", features = ["esp32s3", "unstable"] }
esp-println = { version = "0.16", features = ["esp32s3", "log-04"] }
esp-radio = { version = "0.17", features = ["esp32s3", "unstable", "wifi"] }
esp-rtos = { version = "0.2", features = ["esp32s3", "embassy", "esp-radio"] }
gt911 = "0.3"
log = "0.4"
static_cell = "2"
