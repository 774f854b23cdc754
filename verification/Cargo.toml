[package]
name = "ground_control"
version = "0.1.0"
edition = "2021"
publish = false

[dependencies]
chrono = { version = "=0.4.45", default-features = false, features = ["clock"] }
linux-embedded-hal = "=0.3.2"
rfm69 = "0.4"
rppal = { version = "=0.12.0", features = ["hal"] }
ssd1306 = "=0.4.1"
