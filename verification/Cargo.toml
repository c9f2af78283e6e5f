[package]
name = "mac_keyboard"
version = "0.1.0"
edition = "2021"
publish = false

[dependencies]
cocoa = "0.20"
