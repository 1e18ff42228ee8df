[package]
name = "xiao_esp32s3"
version = "0.1.0"
edition = "2021"
publish = false

[dependencies]
embassy-executor = { version = "=0.5.1", features = ["task-arena-size-40960"] }
embassy-net = { version = "=0.4.0", features = ["tcp", "dhcpv4", "medium-ethernet"] }
embassy-sync = "=0.6.2"
embassy-time = "=0.3.2"
embedded-io-async = "=0.6.1"
embedded-storage = "=0.3.2"
esp-alloc = "0.4"
esp-backtrace = { version = "=0.13.0", features = ["esp32s3", "panic-handler", "exception-handler", "println"] }
esp-hal = { version = "=0.19.0", features = ["esp32s3", "async", "opsram-8m"] }
esp-hal-embassy = { version = "=0.2.0", features = ["esp32s3"] }
esp-println = { version = "=0.10.0", features = ["esp32s3", "log"] }
esp-storage = { version = "=0.3.1", features = ["esp32s3"] }
esp-wifi = { version = "=0.7.1", features = ["esp32s3", "wifi", "embassy-net", "async"] }
heapless = "=0.8.0"
libm = "=0.2.16"
static_cell = "=2.1.1"
