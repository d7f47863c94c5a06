[package]
name = "discord_rpc"
version = "0.1.0"
edition = "2021"
publish = false

[dependencies]
discord-rpc-sys = "*"
libc = "*"
