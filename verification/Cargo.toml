[package]
name = "rabbit_infra"
version = "0.1.0"
edition = "2021"
publish = false

[dependencies]
bytes = "1"
libc = "0.2"
flume = "0.11"
tracing = "0.1"
niri-ipc = "*"
