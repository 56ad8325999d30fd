[package]
name = "inputspectrum"
version = "0.1.0"
edition = "2021"
publish = false

[dependencies]
crossterm = "0.28"
ratatui = "0.29"
evdev = "*"
x11 = { version = "*", features = ["xlib", "xrecord"] }
