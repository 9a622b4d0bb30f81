[package]
name = "server_manager"
version = "0.1.0"
edition = "2021"
publish = false

[dependencies]
chrono = "0.4"
flate2 = "1"
tar = "0.4"
rust-ini = "*"
libc = "0.2"
tokio = { version = "0.2", features = ["rt-core", "macros", "sync", "time"] }
futures = "0.3"
tbot = "0.6"
