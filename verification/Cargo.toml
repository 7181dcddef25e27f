[package]
name = "eckhart_ui"
version = "0.1.0"
edition = "2021"
publish = false

[dependencies]
heapless = "=0.8.0"
pareen = { version = "=0.3.3", features = ["easer"] }
easer = "=0.2.1"
