[package]
name = "spd2010_touch"
version = "0.1.0"
edition = "2021"
publish = false

[dependencies]
critical-section = { version = "1", features = ["std"] }
embedded-hal = "1"
heapless = "0.8"
