[package]
name = "howto-cli"
version = "0.1.0"
edition = "2021"
publish = false

[dependencies]
anyhow = "1"
async-openai = "0.23"
clap = { version = "4", features = ["derive"] }
dirs = "5"
tokio = { version = "1", features = ["fs", "macros", "rt"] }
