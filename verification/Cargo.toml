[package]
name = "raccpack-tui"
version = "0.4.4"
edition = "2021"
publish = false

[dependencies]
zeroize = "1"
humantime = "2"
ratatui = "0.29"
crossterm = "0.28"
clap = { version = "4", features = ["derive"] }
dirs = "6"
