[package]
name = "rendezvous_client"
version = "0.1.0"
edition = "2021"
publish = false

[dependencies]
anyhow = "1"
futures = "0.3"
libp2p = { version = "*", default-features = false, features = ["dns", "ed25519", "macros", "noise", "ping", "rendezvous", "tcp", "tokio", "yamux"] }
structopt = "0.3"
tokio = { version = "1", features = ["fs", "io-util", "macros", "rt-multi-thread", "time"] }
