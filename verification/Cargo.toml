[package]
name = "socks5"
version = "0.1.0"
edition = "2021"
publish = false

[dependencies]
futures = "0.3"
log = "0.4"
structopt = "0.3"
tokio = { version = "0.2", features = ["full"] }
