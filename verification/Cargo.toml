[package]
name = "lolcode_lsp"
version = "0.1.0"
edition = "2021"
publish = false

[dependencies]
tokio = { version = "1", features = ["io-std", "io-util", "rt-multi-thread", "macros"] }
tower-lsp = "0.20"
clap = { version = "4", features = ["derive"] }
