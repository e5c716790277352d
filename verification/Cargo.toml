[package]
name = "nono_cli"
version = "0.1.0"
edition = "2021"
publish = false

[dependencies]
serde_json = "=1.0.154"
shlex = "=1.3.0"
rand = "=0.10.3"
getrandom = "=0.4.3"
clap = { version = "=4.6.7", features = ["derive"] }
