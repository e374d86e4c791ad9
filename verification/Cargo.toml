[package]
name = "chronocam"
version = "0.1.0"
edition = "2021"

[dependencies]
chrono = "0.4"
clap = "2"
opencv = "*"
