[package]
name = "tui_regions"
version = "0.1.0"
edition = "2021"
publish = false

[dependencies]
ratatui = { version = "0.25", default-features = false }
