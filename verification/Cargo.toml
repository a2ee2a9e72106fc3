[package]
name = "offline_monitor"
version = "0.1.0"
edition = "2021"
publish = false

[dependencies]
base64 = "*"
rtnetlink = "*"
netlink-packet-core = "*"
netlink-packet-route = "*"
netlink-sys = "*"
futures = "*"
tokio = { version = "*", features = ["rt", "macros", "net", "time"] }
clap = "*"
log = "*"
