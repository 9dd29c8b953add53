[package]
name = "tochat"
version = "0.1.0"
edition = "2021"
publish = false

[dependencies]
web3 = { version = "*", default-features = false, features = ["signing"] }
secp256k1 = { version = "0.27", features = ["rand-std"] }
rand = "0.8"
chrono = { version = "*", default-features = false, features = ["clock"] }
tokio = { version = "*", features = ["sync", "rt-multi-thread", "macros", "time"] }
tui = "0.19"
crossterm = "0.25"
serde_json = "*"
futures = "*"
futures-timer = "*"
instant = "*"
log = "*"
colorful = "*"
