[package]
name = "x11_window"
version = "0.1.0"
edition = "2021"
publish = false

[dependencies]
raw-window-handle = "=0.5.2"
x11 = "=2.21.0"
x11rb = { version = "=0.13.2", features = ["extra-traits"] }
