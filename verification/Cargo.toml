[package]
name = "webshot"
version = "0.1.0"
edition = "2021"
publish = false

[dependencies]
url = "*"
clap = "*"
futures = "*"
reqwest = { version = "*", default-features = false }
tokio = { version = "*", features = ["rt-multi-thread", "macros", "time", "fs", "sync"] }
chromiumoxide = "*"
