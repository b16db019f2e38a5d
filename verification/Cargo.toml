[package]
name = "packet_capture"
version = "0.1.0"
edition = "2021"

[dependencies]
etherparse = "0.13"
libc = "0.2"
