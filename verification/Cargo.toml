[package]
name = "editrs"
version = "0.1.0"
edition = "2021"
publish = false

[dependencies]
termion = "1"
clipboard = "0.5"
