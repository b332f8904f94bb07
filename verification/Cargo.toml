[package]
name = "sysdash"
version = "0.1.0"
edition = "2021"
publish = false

[dependencies]
sysinfo = "0.8"
termion = "1.5"
tui = "0.5"
