[package]
name = "multicast_chat"
version = "0.1.0"
edition = "2021"
publish = false

[dependencies]
clap = "4"
socket2 = "0.5"
tokio = { version = "1", features = ["rt-multi-thread", "net", "io-std", "io-util", "signal", "macros"] }
