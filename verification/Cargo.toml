[package]
name = "rclock"
version = "0.1.0"
edition = "2021"
publish = false

[dependencies]
chrono = "0.4"
clap = "4"
crossterm = "0.28"
ctrlc = "3"
figlet-rs = "0.1"
