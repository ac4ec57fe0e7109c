[package]
name = "homily"
version = "0.1.0"
edition = "2021"
publish = false

[dependencies]
tokio = { version = "*", features = ["rt-multi-thread", "fs", "io-util"] }
reqwest = { version = "*", default-features = false, features = ["stream"] }
futures = "*"
quick-xml = { version = "*", features = ["serialize"] }
serde = { version = "*", features = ["derive"] }
chrono = "*"
crossterm = "*"
dirs = "*"
log = "*"
