[package]
name = "musicus"
version = "0.1.0"
edition = "2021"
publish = false

[dependencies]
futures-channel = "=0.3.34"
gettext-rs = { version = "=0.8.0", features = ["gettext-system"] }
gtk4 = "=0.11.5"
libadwaita = "=0.9.2"
gtk-macros = "=0.3.0"
