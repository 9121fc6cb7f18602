[package]
name = "picotin"
version = "0.1.0"
edition = "2021"
publish = false

[dependencies]
rand = "*"
anyhow = "*"
log = "*"
env_logger = "*"
clap = { version = "*", features = ["derive"] }
cgroups-rs = "*"
unshare = "*"
nix = { version = "*", features = ["sched"] }
rtnetlink = { version = "*", features = ["smol_socket"] }
netlink-proto = { version = "*", features = ["smol_socket"] }
async-executor = "*"
futures-lite = "*"
futures-util = "*"
