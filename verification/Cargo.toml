[package]
name = "synth_cli"
version = "0.1.0"
edition = "2021"
publish = false

[dependencies]
ratatui = "*"
tui-input = "*"
