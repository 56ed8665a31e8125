[package]
name = "chat_cli"
version = "0.1.0"
edition = "2021"
publish = false

[dependencies]
globset = "=0.4.21"
glob = "=0.3.4"
shellexpand = "=3.1.2"
shlex = "=2.0.1"
serde_json = "=1.0.154"
regex = "=1.13.1"
serde = { version = "=1.0.229", features = ["derive"] }
clap = { version = "=4.6.7", features = ["derive"] }
crossterm = "=0.29.0"
dirs = "=7.0.0"
uuid = { version = "=1.29.0", features = ["v4"] }
rand = "=0.10.3"
bstr = "*"
