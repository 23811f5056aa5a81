[package]
name = "lightnovel_cli"
version = "0.1.0"
edition = "2021"
publish = false

[dependencies]
epub = "=1.2.4"
html2text = "=0.4.5"
image = { version = "=0.25.10", default-features = false, features = ["png", "jpeg"] }
libc = "=0.2.191"
ncurses = "=5.101.0"
reqwest = { version = "=0.13.5", features = ["form"] }
scraper = "=0.29.0"
tempfile = "=3.27.0"
tokio = { version = "=1.54.1", features = ["rt-multi-thread", "macros"] }
