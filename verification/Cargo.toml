[package]
name = "countdown"
version = "0.1.0"
edition = "2021"
publish = false

[dependencies]
crossterm = "0.27"
figlet-rs = "0.1.5"
ratatui = "0.23"
