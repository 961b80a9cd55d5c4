[package]
name = "cef_updater"
version = "0.1.0"
edition = "2021"
publish = false

[dependencies]
classicube-sys = "*"
log = "*"
