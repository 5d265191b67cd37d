[package]
name = "tty_relay"
version = "0.1.0"
edition = "2021"
publish = false

[dependencies]
anyhow = "1"
clap = { version = "3", features = ["cargo"] }
clap_complete = "3"
flexi_logger = "*"
log = "0.4"
serialport = { version = "4", default-features = false }
