[package]
name = "beacon"
version = "0.1.0"
edition = "2021"
publish = false

[dependencies]
bincode = "=2.0.1"
chrono = "=0.4.45"
clap = { version = "=4.6.7", features = ["derive"] }
daemonize = "=0.5.0"
dhcp4r = "=0.2.3"
etherparse = "=0.21.0"
libc = "=0.2.191"
neli = "=0.7.5"
nl80211 = "=0.0.2"
rand = "=0.9.5"
ratatui = "=0.29.0"
serde = { version = "=1.0.229", features = ["derive"] }
serde_json = "=1.0.154"
socket2 = { version = "=0.6.5", features = ["all"] }
tokio = { version = "=1.54.1", features = ["full"] }
