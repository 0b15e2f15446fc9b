[package]
name = "gb_emulator"
version = "0.1.0"
edition = "2021"
publish = false

[dependencies]
log = "0.4"
macroquad = "0.4"
rfd = "0.14"
simple-log = "*"
