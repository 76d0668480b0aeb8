[package]
name = "sixel_backend"
version = "0.1.0"
edition = "2021"
publish = false

[dependencies]
crossterm = "=0.28.1"
icy_sixel = "0.2"
slint = { version = "=1.6.0", default-features = false, features = ["std", "compat-1-2", "renderer-software"] }
