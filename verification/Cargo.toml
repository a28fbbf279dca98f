[package]
name = "panotti"
version = "0.1.0"
edition = "2021"
publish = false

[dependencies]
cpal = "0.15"
ratatui = "0.29"
tokio = { version = "1", features = ["macros", "rt-multi-thread"] }
