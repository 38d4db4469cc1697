[package]
name = "tower_installer"
version = "0.1.0"
edition = "2021"
publish = false

[dependencies]
byte-unit = "*"
clap = "*"
prettytable-rs = "*"
sysinfo = "*"
