[package]
name = "borrow_checkmate"
version = "0.1.0"
edition = "2021"
publish = false

[dependencies]
shakmaty = "=0.30.1"
crossterm = { version = "=0.28.1", features = ["event-stream"] }
futures = "=0.3.34"
ratatui = "=0.29.0"
tokio = { version = "=1.54.1", features = ["full"] }
color-eyre = "=0.6.5"
