[package]
name = "tera_sim"
version = "0.1.0"
edition = "2021"
publish = false

[dependencies]
rand = { version = "0.8", features = ["small_rng"] }
anyhow = "1"
tokio = { version = "1", features = ["rt-multi-thread", "macros", "sync", "time", "signal"] }
crossterm = "*"
ratatui = "*"
colored = "*"
tracing = "0.1"
