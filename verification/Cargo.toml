[package]
name = "crabd"
version = "0.1.0"
edition = "2021"
publish = false

[dependencies]
bollard = "=0.21.1"
color-eyre = "=0.6.5"
crossterm = { version = "=0.29.0", features = ["event-stream"] }
futures = "=0.3.34"
ratatui = "=0.30.2"
regex = "=1.13.1"
tokio = { version = "=1.53.2", features = ["macros", "rt-multi-thread", "sync", "time"] }
