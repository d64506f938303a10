[package]
name = "keybase_chat_tui"
version = "0.1.0"
edition = "2021"
publish = false

[dependencies]
anyhow = "=1.0.104"
cursive = { version = "=0.21.1", features = ["toml"] }
dirs = "=7.0.0"
env_logger = "=0.11.11"
log = "=0.4.34"
tokio = { version = "=1.53.2", features = ["rt", "rt-multi-thread", "macros", "sync", "time"] }
