[package]
name = "netrole"
version = "0.1.0"
edition = "2021"
publish = false

[dependencies]
tui = "0.19"
crossterm = "0.25"
tokio = { version = "1", features = ["rt-multi-thread", "macros", "net", "time", "sync"] }
thiserror = "1"
