[package]
name = "terminal_light"
version = "0.1.0"
edition = "2021"
publish = false

[dependencies]
crossterm = "*"
xterm-query = "*"
