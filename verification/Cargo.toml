[package]
name = "ccf_gpui_widgets"
version = "0.1.0"
edition = "2021"
publish = false

[dependencies]
zeroize = "1"
secrecy = "0.10"
dirs = "6"
smol = "2"
rfd = "0.15"

[dev-dependencies]
tempfile = "3"
