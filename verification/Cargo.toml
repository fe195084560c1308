[package]
name = "ipfs_client"
version = "0.1.0"
edition = "2021"
publish = false

[dependencies]
actix-web = { version = "=0.7.19", default-features = false }
bytes = "=0.4.12"
cid = "=0.3.1"
dirs = "=1.0.5"
futures = "=0.1.31"
hex = "=0.3.2"
mime = "=0.3.17"
multiaddr = "=0.3.1"
rand = "=0.6.5"
serde = { version = "=1.0.229", features = ["derive"] }
url = "=1.7.2"
