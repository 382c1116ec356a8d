[package]
name = "fade_display"
version = "0.1.0"
edition = "2021"
publish = false

[dependencies]
gtk4 = { version = "*", features = ["v4_12"] }
gtk4-layer-shell = "*"
