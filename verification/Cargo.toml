[package]
name = "gameboy"
version = "0.1.0"
edition = "2021"
publish = false

[dependencies]
clap = "=4.6.7"
app_dirs = "=1.2.1"
