[package]
name = "kadugu_net"
version = "0.1.0"
edition = "2021"
publish = false

[dependencies]
libp2p = { version = "0.55", features = ["tokio", "tcp", "quic", "dns", "noise", "yamux", "relay", "dcutr", "identify", "macros", "ed25519"] }
libp2p-stream = "0.3.0-alpha"
tokio = { version = "1", features = ["full"] }
futures = "0.3"
async-compat = "0.2"
anyhow = "1"
tracing = "0.1"
once_cell = "1"
