[package]
name = "slcan_fd"
version = "0.1.0"
edition = "2021"
publish = false

[dependencies]
heapless = "0.8"
embedded-can = "0.4"
serialport = { version = "4", default-features = false }
tokio-serial = "5"
tokio = { version = "1", features = ["io-util"] }
thiserror = "1"
