[package]
name = "libbridge"
version = "0.1.0"
edition = "2021"
publish = false

[dependencies]
anyhow = "=1.0.104"
async-std = "=1.13.2"
cni-plugin = "=0.2.1"
log = "=0.4.35"
macaddr = "=1.0.1"
netlink-packet-route = "=0.33.0"
rtnetlink = "=0.23.0"
semver = "=0.11.0"
serde = { version = "=1.0.229", features = ["derive"] }
serde_json = "=1.0.154"
