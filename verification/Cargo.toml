[package]
name = "gupax"
version = "0.1.0"
edition = "2021"
publish = false

[dependencies]
portable-pty = "*"
sysinfo = "*"
reqwest = { version = "*", default-features = false }
tokio = { version = "*", features = ["rt", "rt-multi-thread", "time", "macros"] }
log = "*"
