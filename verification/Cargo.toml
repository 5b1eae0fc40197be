[package]
name = "serial_controller"
version = "0.1.0"
edition = "2021"
publish = false

[dependencies]
confy = "=2.0.0"
libloading = "=0.9.0"
palette = "=0.6.1"
serde = { version = "=1.0.229", features = ["derive"] }
serialport = { version = "=4.10.1", default-features = false }
