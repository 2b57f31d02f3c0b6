[package]
name = "dailybible"
version = "0.1.0"
edition = "2021"
publish = false

[dependencies]
bibleref = "=0.4.0"
chrono = { version = "=0.4.45", features = ["serde"] }
csv = "=1.4.0"
dptree = "=0.3.0"
log = "=0.4.34"
pretty_env_logger = "=0.5.0"
serde = { version = "=1.0.229", features = ["derive"] }
serde_json = "=1.0.154"
# Not used by this crate. teloxide-core depends on takecell, and takecell
# 0.1.2 asks for a newer compiler than the one this crate is built with.
takecell = "<0.1.2"
teloxide = { version = "=0.13.0", features = ["macros"] }
tokio = { version = "=1.54.1", features = ["rt-multi-thread", "macros", "signal", "fs", "time", "sync"] }
