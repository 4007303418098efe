[package]
name = "algonds"
version = "0.1.0"
edition = "2021"
publish = false

[dependencies]
shlex = "=1.3.0"
clap = { version = "=3.2.25", features = ["derive"] }
crossterm = "=0.25.0"
tui = "=0.19.0"
minreq = { version = "=2.14.1", features = ["https"] }
serde = { version = "=1.0.229", features = ["derive"] }
serde_yaml = "=0.9.34"
linreg = "=0.2.0"
