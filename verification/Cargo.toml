[package]
name = "riff"
version = "0.1.0"
edition = "2021"
publish = false

[dependencies]
gettext-rs = { version = "0.7", features = ["gettext-system"] }
gio = "0.20"
glib = "0.20"
