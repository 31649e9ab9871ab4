[package]
name = "unicode_schedule"
version = "0.1.0"
edition = "2021"
publish = false

[dependencies]
chrono = "*"
clap = "*"
comfy-table = "*"
unicode-prettytable = "*"
