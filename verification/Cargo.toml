[package]
name = "key_dispatch"
version = "0.1.0"
edition = "2021"
publish = false

[dependencies]
clipboard = "=0.1.2"
termion = "=4.0.6"
