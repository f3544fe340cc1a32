[package]
name = "autossh"
version = "0.1.0"
edition = "2021"
publish = false

[dependencies]
anyhow = "1"
image = { version = "0.25", default-features = false, features = ["ico"] }
eframe = { version = "*", default-features = false, features = ["glow", "x11"] }
tray-icon = "*"
