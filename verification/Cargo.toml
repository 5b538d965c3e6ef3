[package]
name = "rtnetlink"
version = "0.1.0"
edition = "2021"
publish = false

[dependencies]
futures = "*"
netlink-packet-core = "*"
netlink-packet-route = "*"
