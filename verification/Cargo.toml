[package]
name = "incremental_tui"
version = "0.1.0"
edition = "2021"
publish = false

[dependencies]
serde = "*"
serde_json = "*"
ratatui = "*"
color-eyre = "*"
tui-widget-list = "*"
