[package]
name = "platform_chat"
version = "0.1.0"
edition = "2021"

[dependencies]
time = "*"
