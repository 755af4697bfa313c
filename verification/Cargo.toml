[package]
name = "portfolio_bot"
version = "0.1.0"
edition = "2021"
publish = false

[dependencies]
url = "=2.5.8"
teloxide = { version = "=0.12.2", features = ["macros"] }
# Not used by this crate itself: teloxide-core depends on takecell, and its
# 0.1.2 asks for a newer compiler than the one this crate is built with.
takecell = "=0.1.1"
tokio = { version = "=1.54.1", features = ["rt-multi-thread", "macros"] }
dptree = "=0.3.0"
serde = { version = "=1.0.229", features = ["derive"] }
serde_json = "=1.0.154"
log = "=0.4.34"
pretty_env_logger = "=0.5.0"
