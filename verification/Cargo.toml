[package]
name = "notepad"
version = "0.1.0"
edition = "2021"
publish = false

[dependencies]
eframe = "=0.19.0"
rfd = { version = "0.12", default-features = false, features = ["xdg-portal"] }
