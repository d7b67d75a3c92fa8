[package]
name = "wallet"
version = "0.1.0"
edition = "2021"
publish = false

[dependencies]
chrono = "0.4"
clap = "3.2"
rusqlite = { version = "0.28", features = ["bundled"] }
time = { version = "0.3", features = ["parsing", "formatting"] }
