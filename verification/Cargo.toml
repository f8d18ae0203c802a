[package]
name = "mov2mp4"
version = "0.1.0"
edition = "2021"
publish = false

[dependencies]
anyhow = "*"
clap = { version = "*", features = ["derive"] }
tokio = { version = "*", features = ["macros", "rt-multi-thread", "process", "fs"] }
tracing = "*"
tracing-subscriber = "*"
walkdir = "*"
