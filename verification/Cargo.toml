[package]
name = "blendr"
version = "0.1.0"
edition = "2021"
publish = false

[dependencies]
regex = "*"
uuid = "*"
btleplug = "*"
tokio = { version = "*", default-features = false, features = ["rt-multi-thread", "macros", "time", "sync"] }
crossterm = "*"
chrono = { version = "*", default-features = false, features = ["clock"] }
clap = { version = "*", features = ["derive"] }
futures = "*"
