[package]
name = "tztail"
version = "0.1.0"
edition = "2021"
publish = false

[dependencies]
regex = "1"
chrono = "0.4"
chrono-tz = "*"
clap = "*"
atty = "*"
colored = "*"
