[package]
name = "pty_session"
version = "0.1.0"
edition = "2021"
publish = false

[dependencies]
portable-pty = "=0.9.0"
libc = "=0.2.191"
anyhow = "1.0"
