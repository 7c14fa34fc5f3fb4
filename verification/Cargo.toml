[package]
name = "unlimited_ammo"
version = "0.2.0"
edition = "2021"
publish = false

[dependencies]
ratatui = "0.29"
crossterm = "0.28"
ansi-to-tui = "7"
unicode-segmentation = "1"
chrono = "0.4"
log = "0.4"
