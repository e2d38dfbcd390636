[package]
name = "iron_login"
version = "0.1.0"
edition = "2021"
publish = false

[dependencies]
iron = "*"
oven = "*"
persistent = "*"
cookie = "*"
