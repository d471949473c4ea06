[package]
name = "colorwarm"
version = "0.1.0"
edition = "2021"
publish = false

[dependencies]
chrono = "*"
clap = "*"
daemonize = "*"
termios = "*"
x11rb = { version = "*", features = ["randr"] }
