[package]
name = "rafx_api"
version = "0.1.0"
edition = "2021"
publish = false

[dependencies]
fnv = "1.0.7"
raw-window-handle = "0.5"
