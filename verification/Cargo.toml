[package]
name = "tsar"
version = "0.1.0"
edition = "2021"
publish = false

[dependencies]
rspotify = { version = "*", features = ["cli"] }
tokio = { version = "*", features = ["macros", "rt-multi-thread", "time"] }
futures = "*"
tempfile = "*"
clap = { version = "*", features = ["derive"] }
