[package]
name = "holepunch"
version = "0.1.0"
edition = "2021"
publish = false

[dependencies]
color-eyre = "0.6"
igd = { version = "0.12", features = ["aio"] }
local-ip-address = "*"
port_scanner = "*"
public-ip = "*"
structopt = "0.3"
tokio = { version = "1", features = ["full"] }
