[package]
name = "counter_bot"
version = "0.1.0"
edition = "2021"
publish = false

[dependencies]
teloxide = "=0.17.0"
tokio = { version = "=1.53.2", features = ["rt-multi-thread", "macros"] }
dptree = "=0.5.1"
log = "=0.4.34"
env_logger = "=0.11.11"
takecell = "=0.1.1"
