[package]
name = "etcd_tui"
version = "0.1.0"
edition = "2021"
publish = false

[dependencies]
anyhow = "*"
clap = { version = "*", features = ["derive", "env"] }
crossterm = "=0.28.1"
etcd-client = "*"
futures = "*"
ratatui = "=0.28.1"
tokio = { version = "*", features = ["macros", "rt-multi-thread", "sync", "time"] }
tui-textarea = "=0.6.1"
