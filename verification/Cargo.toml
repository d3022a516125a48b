[package]
name = "hyprshell"
version = "0.1.0"
edition = "2021"
publish = false

[dependencies]
walkdir = "*"
xdg-desktop-entries = "*"
hyprland = "*"
chrono = "*"

[dev-dependencies]
rust-fuzzy-search = "*"
