[package]
name = "sniblock"
version = "0.1.0"
edition = "2021"
publish = false

[dependencies]
etherparse = "*"
clap = { version = "*", features = ["derive"] }
libc = "*"
nfqueue = "*"
pcap = "*"
