[package]
name = "husky"
version = "0.1.0"
edition = "2021"
publish = false

[dependencies]
base64 = "*"
chrono = "*"
crossterm = "*"
futures-util = "*"
reqwest = { version = "*", default-features = false }
tokio = { version = "*", features = ["rt-multi-thread", "macros", "time", "net"] }
tokio-tungstenite = "*"
tui = "*"
unicode-width = "*"
url = "*"
